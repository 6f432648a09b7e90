//! Tags and device links: the polling pass, single-tag writes and
//! reconfiguration of one link.

use vstd::prelude::*;
use vstd::string::*;
use crate::codec::{
    read_outcome, read_plan, read_plan_spec, decode_reply, reply_view, write_plan,
    write_plan_spec, ReadReply, RegisterRead, RegisterWrite,
};
use crate::model::{
    CodecError, Family, Fault, LinkStatus, ModbusRegister, Protocol, S7Addr, TagAddress,
    TagStatus, TagValue,
};
use crate::text::{decimal, decimal_pad3, push_decimal, push_decimal_pad3};

verus! {

/// One named data point of a link.
#[derive(Clone, Debug, PartialEq, Eq)]
pub struct Tag {
    pub id: usize,
    pub tk: String,
    pub name: String,
    pub enabled: bool,
    pub address: TagAddress,
    pub value: TagValue,
    pub status: TagStatus,
}

/// A request to write `value` into the tag `tag_id` of the link `link_id`.
#[derive(Clone, Debug, PartialEq, Eq)]
pub struct TagWriteInfo {
    pub link_id: usize,
    pub tag_id: usize,
    pub value: TagValue,
}

/// A configured connection to one field device and its tags.
/// `last_poll_time` is the local wall-clock time of the last poll pass in
/// milliseconds since 1970-01-01 00:00; `poll_wait_duration` is in milliseconds.
#[derive(Clone, Debug, PartialEq, Eq)]
pub struct DeviceLink {
    pub id: usize,
    pub tk: String,
    pub name: String,
    pub enabled: bool,
    pub protocol: Protocol,
    pub status: LinkStatus,
    pub error_message: String,
    pub tags: Vec<Tag>,
    pub tag_count: usize,
    pub last_poll_time: i64,
    pub poll_wait_duration: u64,
}

/// Text given to the status of a tag that is not polled.
pub open spec fn not_enabled_message() -> Seq<char> {
    "not enabled"@
}

/// Text of the failure of an enabled tag for which no reply was handed over.
pub open spec fn no_reply_message() -> Seq<char> {
    "No reply from the session."@
}

/// Text of the link status when the tag `id` fails with `f`.
pub open spec fn link_failure_message(id: usize, f: Fault) -> Seq<char> {
    "Reading failed at Tag: "@ + decimal(id as nat) + ". Error: "@ + f.message()
}

/// The reply that belongs to the tag at position `i`.
pub open spec fn reply_at(replies: Seq<ReadReply>, i: int) -> Result<Seq<u16>, Seq<char>> {
    if 0 <= i < replies.len() {
        reply_view(replies[i])
    } else {
        Err(no_reply_message())
    }
}

/// What a poll pass reads for `tag` at position `i`: nothing for a disabled
/// tag, else the outcome of the codec.
pub open spec fn tag_poll_outcome(
    tag: Tag,
    session: Family,
    replies: Seq<ReadReply>,
    i: int,
) -> Option<Result<TagValue, Fault>> {
    if tag.enabled {
        Some(read_outcome(session, tag.address, tag.value, reply_at(replies, i)))
    } else {
        None
    }
}

/// The link failure text of the last failing enabled tag among the first `n`.
pub open spec fn last_failure(
    tags: Seq<Tag>,
    session: Family,
    replies: Seq<ReadReply>,
    n: int,
) -> Option<Seq<char>>
    decreases n,
{
    if n <= 0 {
        None
    } else {
        match tag_poll_outcome(tags[n - 1], session, replies, n - 1) {
            Some(Err(f)) => Some(link_failure_message(tags[n - 1].id, f)),
            _ => last_failure(tags, session, replies, n - 1),
        }
    }
}

/// Position of the first tag with this id at or after `from`.
pub open spec fn first_tag_index(tags: Seq<Tag>, id: usize, from: int) -> Option<int>
    decreases tags.len() - from,
{
    if from < 0 || from >= tags.len() {
        None
    } else if tags[from].id == id {
        Some(from)
    } else {
        first_tag_index(tags, id, from + 1)
    }
}

impl Tag {
    /// Id, keys, name, enablement and address agree.
    pub open spec fn same_identity(self, other: Tag) -> bool {
        &&& self.id == other.id
        &&& self.tk == other.tk
        &&& self.name == other.name
        &&& self.enabled == other.enabled
        &&& self.address == other.address
    }

    /// Every field agrees, text compared by its characters.
    pub open spec fn same_as(self, other: Tag) -> bool {
        &&& self.id == other.id
        &&& self.tk@ == other.tk@
        &&& self.name@ == other.name@
        &&& self.enabled == other.enabled
        &&& self.address == other.address
        &&& self.value == other.value
        &&& self.status.same_as(other.status)
    }

    /// Whether two tag records are the same.
    pub fn same(&self, other: &Tag) -> (r: bool)
        ensures
            r == self.same_as(*other),
    {
        self.id == other.id && self.tk == other.tk && self.name == other.name && self.enabled
            == other.enabled && self.address == other.address && self.value == other.value
            && self.status.same(&other.status)
    }

    /// `self` is what a poll pass makes of `old` at position `i`.
    pub open spec fn polled_from(self, old: Tag, session: Family, replies: Seq<ReadReply>, i: int) -> bool {
        &&& self.same_identity(old)
        &&& match tag_poll_outcome(old, session, replies, i) {
            None => self.value == old.value && self.status.is_error_with(not_enabled_message()),
            Some(Ok(v)) => self.value == v && self.status is Normal,
            Some(Err(f)) => self.value == old.value && self.status.is_error_with(f.message()),
        }
    }

    /// A new disabled tag, holding `Real` zero, with an `Error("Initiated.")` status.
    pub fn new(name: String, tk: String, id: usize, address: TagAddress) -> (r: Self)
        ensures
            r.name == name,
            r.tk == tk,
            r.id == id,
            r.address == address,
            !r.enabled,
            r.value == TagValue::Real(0),
            r.status.is_error_with("Initiated."@),
    {
        Tag {
            id,
            tk,
            name,
            address,
            enabled: false,
            value: TagValue::Real(0),
            status: TagStatus::Error(String::from_str("Initiated.")),
        }
    }

    /// Reads the tag through a session of the family `session`, given what the
    /// session answered to the tag's register read. Sets the status to
    /// `Normal`; on success stores the decoded value.
    pub fn read(&mut self, session: Family, reply: &ReadReply) -> (r: Result<(), CodecError>)
        ensures
            final(self).same_identity(*old(self)),
            final(self).status is Normal,
            match read_outcome(session, old(self).address, old(self).value, reply_view(*reply)) {
                Ok(v) => r is Ok && final(self).value == v,
                Err(f) => r is Err && r->Err_0@ == f && final(self).value == old(self).value,
            },
    {
        self.status = TagStatus::Normal;
        match read_plan(session, &self.address, &self.value) {
            Err(e) => {
                return Err(e);
            },
            Ok(_) => {},
        }
        match reply {
            Err(m) => Err(CodecError::TransportFailure(m.clone())),
            Ok(words) => match decode_reply(&self.value, words) {
                Some(v) => {
                    self.value = v;
                    Ok(())
                },
                None => {
                    proof {
                        reveal_strlit("Device answered with too few registers.");
                    }
                    Err(
                        CodecError::TransportFailure(
                            String::from_str("Device answered with too few registers."),
                        ),
                    )
                },
            },
        }
    }

    /// Prepares writing `value` into the tag through a session of the family
    /// `session`: returns the registers to send. Sets the status to `Normal`;
    /// the stored value is left as it is.
    pub fn write(&mut self, session: Family, value: TagValue) -> (r: Result<RegisterWrite, CodecError>)
        ensures
            final(self).same_identity(*old(self)),
            final(self).value == old(self).value,
            final(self).status is Normal,
            match write_plan_spec(session, old(self).address, old(self).value, value) {
                Ok(w) => r == Ok::<RegisterWrite, CodecError>(w),
                Err(f) => r is Err && r->Err_0@ == f,
            },
    {
        self.status = TagStatus::Normal;
        write_plan(session, &self.address, &self.value, &value)
    }

    /// One step of a poll pass at position `i`: returns the failure text when
    /// the enabled tag could not be read.
    fn poll_step(&mut self, session: Family, replies: &Vec<ReadReply>, i: usize) -> (r: Option<String>)
        ensures
            final(self).polled_from(*old(self), session, replies@, i as int),
            match tag_poll_outcome(*old(self), session, replies@, i as int) {
                Some(Err(f)) => r is Some && r->Some_0@ == link_failure_message(old(self).id, f),
                _ => r is None,
            },
    {
        if !self.enabled {
            proof {
                reveal_strlit("not enabled");
            }
            self.status = TagStatus::Error(String::from_str("not enabled"));
            return None;
        }
        let outcome = if i < replies.len() {
            self.read(session, &replies[i])
        } else {
            proof {
                reveal_strlit("No reply from the session.");
            }
            let missing: ReadReply = Err(String::from_str("No reply from the session."));
            self.read(session, &missing)
        };
        match outcome {
            Ok(()) => None,
            Err(e) => {
                let m = e.message();
                self.status = TagStatus::Error(m.clone());
                proof {
                    reveal_strlit("Reading failed at Tag: ");
                    reveal_strlit(". Error: ");
                }
                let mut text = String::from_str("Reading failed at Tag: ");
                push_decimal(&mut text, self.id);
                text.append(". Error: ");
                text.append(m.as_str());
                Some(text)
            },
        }
    }
}

/// The address given to every tag of a new link speaking `protocol`.
pub open spec fn default_address(protocol: Protocol) -> TagAddress {
    match protocol {
        Protocol::ModbusTcp(_) | Protocol::ModbusSerial(_) => TagAddress::ModbusAddr(
            ModbusRegister::Holding(0),
        ),
        Protocol::S7(_) => TagAddress::S7Addr(S7Addr { db: 1, offset: 0, start_bit: 0 }),
        Protocol::Eip(_) => TagAddress::EipAddr,
        Protocol::OpcUa(_) => TagAddress::OpcUaAddr,
    }
}

/// The protocol family of the sessions that `protocol` opens.
pub open spec fn protocol_family(protocol: Protocol) -> Family {
    match protocol {
        Protocol::ModbusTcp(_) | Protocol::ModbusSerial(_) => Family::Modbus,
        Protocol::S7(_) => Family::S7,
        Protocol::Eip(_) => Family::Eip,
        Protocol::OpcUa(_) => Family::OpcUa,
    }
}

/// Text of the `host:port` endpoint of a Modbus/TCP link.
pub open spec fn endpoint_text(ip: Seq<char>, port: usize) -> Seq<char> {
    ip + ":"@ + decimal(port as nat)
}

impl DeviceLink {
    /// Everything but the tags, the link status and the poll time agree.
    pub open spec fn same_settings(self, other: DeviceLink) -> bool {
        &&& self.id == other.id
        &&& self.tk == other.tk
        &&& self.name == other.name
        &&& self.enabled == other.enabled
        &&& self.protocol == other.protocol
        &&& self.error_message == other.error_message
        &&& self.tag_count == other.tag_count
        &&& self.poll_wait_duration == other.poll_wait_duration
    }

    /// Every field agrees, text compared by its characters and tags pairwise.
    pub open spec fn same_as(self, other: DeviceLink) -> bool {
        &&& self.id == other.id
        &&& self.tk@ == other.tk@
        &&& self.name@ == other.name@
        &&& self.enabled == other.enabled
        &&& self.protocol.same_as(other.protocol)
        &&& self.status.same_as(other.status)
        &&& self.error_message@ == other.error_message@
        &&& self.tags@.len() == other.tags@.len()
        &&& forall|i: int|
            0 <= i < self.tags@.len() ==> #[trigger] self.tags@[i].same_as(other.tags@[i])
        &&& self.tag_count == other.tag_count
        &&& self.last_poll_time == other.last_poll_time
        &&& self.poll_wait_duration == other.poll_wait_duration
    }

    /// Whether two link records are the same.
    pub fn same(&self, other: &DeviceLink) -> (r: bool)
        ensures
            r == self.same_as(*other),
    {
        if !(self.id == other.id && self.tk == other.tk && self.name == other.name && self.enabled
            == other.enabled && self.protocol.same(&other.protocol) && self.status.same(
            &other.status,
        ) && self.error_message == other.error_message && self.tag_count == other.tag_count
            && self.last_poll_time == other.last_poll_time && self.poll_wait_duration
            == other.poll_wait_duration && self.tags.len() == other.tags.len()) {
            return false;
        }
        let n = self.tags.len();
        let mut i: usize = 0;
        while i < n
            invariant
                i <= n,
                n == self.tags@.len(),
                n == other.tags@.len(),
                forall|j: int| 0 <= j < i ==> #[trigger] self.tags@[j].same_as(other.tags@[j]),
            decreases n - i,
        {
            if !self.tags[i].same(&other.tags[i]) {
                return false;
            }
            i = i + 1;
        }
        true
    }

    /// `self` is what one poll pass of `old` makes, with the session family
    /// `session`, the replies `replies` in tag order and the time stamp `now`.
    pub open spec fn polled_from(self, old: DeviceLink, session: Family, replies: Seq<ReadReply>, now: i64) -> bool {
        &&& self.same_settings(old)
        &&& self.tags@.len() == old.tags@.len()
        &&& forall|i: int|
            0 <= i < old.tags@.len() ==> #[trigger] self.tags@[i].polled_from(
                old.tags@[i],
                session,
                replies,
                i,
            )
        &&& match last_failure(old.tags@, session, replies, old.tags@.len() as int) {
            None => self.status is Normal,
            Some(m) => self.status.is_error_with(m),
        }
        &&& self.last_poll_time == now
    }

    /// A new disabled link with `n_tags` disabled tags. Tag `i` is named
    /// `TAG<i>`, keyed `LK<id>:<i padded to three digits>` and addressed at
    /// the protocol's default address; the link key is `tk` followed by `id`.
    pub fn new(
        name: String,
        tk: String,
        id: usize,
        protocol: Protocol,
        n_tags: usize,
        poll_wait_duration: u64,
    ) -> (r: Self)
        ensures
            r.id == id,
            r.name == name,
            r.tk@ == tk@ + decimal(id as nat),
            !r.enabled,
            r.protocol == protocol,
            r.status.is_error_with("Disconnected"@),
            r.error_message@ == "Disconnected."@,
            r.tag_count == n_tags,
            r.last_poll_time == 0,
            r.poll_wait_duration == poll_wait_duration,
            r.tags@.len() == n_tags,
            forall|i: int|
                0 <= i < n_tags ==> {
                    let t = #[trigger] r.tags@[i];
                    &&& t.id == i
                    &&& t.name@ == "TAG"@ + decimal(i as nat)
                    &&& t.tk@ == "LK"@ + decimal(id as nat) + ":"@ + decimal_pad3(i as nat)
                    &&& !t.enabled
                    &&& t.address == default_address(protocol)
                    &&& t.value == TagValue::Real(0)
                    &&& t.status.is_error_with("Initiated."@)
                },
    {
        let address = match &protocol {
            Protocol::ModbusTcp(_) => TagAddress::ModbusAddr(ModbusRegister::Holding(0)),
            Protocol::ModbusSerial(_) => TagAddress::ModbusAddr(ModbusRegister::Holding(0)),
            Protocol::S7(_) => TagAddress::S7Addr(S7Addr { db: 1, offset: 0, start_bit: 0 }),
            Protocol::Eip(_) => TagAddress::EipAddr,
            Protocol::OpcUa(_) => TagAddress::OpcUaAddr,
        };
        proof {
            reveal_strlit("TAG");
            reveal_strlit("LK");
            reveal_strlit(":");
            reveal_strlit("Disconnected");
            reveal_strlit("Disconnected.");
        }
        let mut tags: Vec<Tag> = Vec::new();
        let mut i: usize = 0;
        while i < n_tags
            invariant
                i <= n_tags,
                address == default_address(protocol),
                tags@.len() == i,
                forall|j: int|
                    0 <= j < i ==> {
                        let t = #[trigger] tags@[j];
                        &&& t.id == j
                        &&& t.name@ == "TAG"@ + decimal(j as nat)
                        &&& t.tk@ == "LK"@ + decimal(id as nat) + ":"@ + decimal_pad3(j as nat)
                        &&& !t.enabled
                        &&& t.address == default_address(protocol)
                        &&& t.value == TagValue::Real(0)
                        &&& t.status.is_error_with("Initiated."@)
                    },
            decreases n_tags - i,
        {
            let mut tag_name = String::from_str("TAG");
            push_decimal(&mut tag_name, i);
            let mut tag_key = String::from_str("LK");
            push_decimal(&mut tag_key, id);
            tag_key.append(":");
            push_decimal_pad3(&mut tag_key, i);
            let tag = Tag::new(tag_name, tag_key, i, address);
            tags.push(tag);
            i = i + 1;
        }
        let mut link_key = tk;
        push_decimal(&mut link_key, id);
        DeviceLink {
            id,
            tk: link_key,
            name,
            enabled: false,
            protocol,
            status: LinkStatus::Error(String::from_str("Disconnected")),
            error_message: String::from_str("Disconnected."),
            tags,
            tag_count: n_tags,
            last_poll_time: 0,
            poll_wait_duration,
        }
    }

    /// The protocol family of the sessions that this link opens.
    pub fn session_family(&self) -> (r: Family)
        ensures
            r == protocol_family(self.protocol),
    {
        match &self.protocol {
            Protocol::ModbusTcp(_) => Family::Modbus,
            Protocol::ModbusSerial(_) => Family::Modbus,
            Protocol::S7(_) => Family::S7,
            Protocol::Eip(_) => Family::Eip,
            Protocol::OpcUa(_) => Family::OpcUa,
        }
    }

    /// Where a connection is opened: the `host:port` text of a Modbus/TCP
    /// link. The other protocols are not implemented yet.
    pub fn connect_endpoint(&self) -> (r: Result<String, CodecError>)
        ensures
            match self.protocol {
                Protocol::ModbusTcp(c) => r is Ok && r->Ok_0@ == endpoint_text(c.ip@, c.port),
                _ => r is Err && r->Err_0@ == Fault::Unimplemented,
            },
    {
        match &self.protocol {
            Protocol::ModbusTcp(c) => {
                proof {
                    reveal_strlit(":");
                }
                let mut text = c.ip.clone();
                text.append(":");
                push_decimal(&mut text, c.port);
                Ok(text)
            },
            _ => Err(CodecError::Unimplemented),
        }
    }

    /// Records that a session was opened: the link status becomes `Normal`.
    pub fn mark_connected(&mut self)
        ensures
            final(self).status is Normal,
            final(self).same_settings(*old(self)),
            final(self).tags == old(self).tags,
            final(self).last_poll_time == old(self).last_poll_time,
    {
        self.status = LinkStatus::Normal;
    }

    /// The register reads of one poll pass, in tag order: `None` for a tag
    /// that is disabled or cannot be read through a session of the family
    /// `session` (its failure is recorded by the pass itself).
    pub fn read_requests(&self, session: Family) -> (r: Vec<Option<RegisterRead>>)
        ensures
            r@.len() == self.tags@.len(),
            forall|i: int|
                0 <= i < self.tags@.len() ==> #[trigger] r@[i] == if self.tags@[i].enabled
                    && read_plan_spec(session, self.tags@[i].address, self.tags@[i].value) is Ok {
                    Some(read_plan_spec(session, self.tags@[i].address, self.tags@[i].value)->Ok_0)
                } else {
                    None::<RegisterRead>
                },
    {
        let mut requests: Vec<Option<RegisterRead>> = Vec::new();
        let n = self.tags.len();
        let mut i: usize = 0;
        while i < n
            invariant
                i <= n,
                n == self.tags@.len(),
                requests@.len() == i,
                forall|j: int|
                    0 <= j < i ==> #[trigger] requests@[j] == if self.tags@[j].enabled
                        && read_plan_spec(session, self.tags@[j].address, self.tags@[j].value) is Ok {
                        Some(
                            read_plan_spec(session, self.tags@[j].address, self.tags@[j].value)->Ok_0,
                        )
                    } else {
                        None::<RegisterRead>
                    },
            decreases n - i,
        {
            let tag = &self.tags[i];
            let request = if tag.enabled {
                match read_plan(session, &tag.address, &tag.value) {
                    Ok(plan) => Some(plan),
                    Err(_) => None,
                }
            } else {
                None
            };
            requests.push(request);
            i = i + 1;
        }
        requests
    }

    /// One poll pass, stamped with the time `now` (the caller's clock). `replies[i]` is what the session
    /// answered to the register read of tag `i`. The link status is reset to
    /// `Normal`; disabled tags get `Error("not enabled")` and are
    /// not read; each enabled tag is read, and a failure sets its status and
    /// the link status to an error, the last failing tag's text winning.
    pub fn poll(&mut self, session: Family, replies: &Vec<ReadReply>, now: i64)
        ensures
            final(self).polled_from(*old(self), session, replies@, now),
    {
        self.status = LinkStatus::Normal;
        let n = self.tags.len();
        let mut i: usize = 0;
        while i < n
            invariant
                i <= n,
                n == old(self).tags@.len(),
                self.tags@.len() == n,
                self.same_settings(*old(self)),
                forall|j: int|
                    0 <= j < i ==> #[trigger] self.tags@[j].polled_from(
                        old(self).tags@[j],
                        session,
                        replies@,
                        j,
                    ),
                forall|j: int| i <= j < n ==> #[trigger] self.tags@[j] == old(self).tags@[j],
                match last_failure(old(self).tags@, session, replies@, i as int) {
                    None => self.status is Normal,
                    Some(m) => self.status.is_error_with(m),
                },
            decreases n - i,
        {
            let failure = self.tags[i].poll_step(session, replies, i);
            match failure {
                Some(text) => {
                    self.status = LinkStatus::Error(text);
                },
                None => {},
            }
            i = i + 1;
        }
        self.last_poll_time = now;
    }

    /// Prepares the write of `tag_to_write.value` into the first tag whose id
    /// is `tag_to_write.tag_id`: returns the registers to send. Fails with
    /// `NotFound`, changing nothing, when no tag has that id.
    pub fn write_tag(&mut self, tag_to_write: &TagWriteInfo, session: Family) -> (r: Result<
        RegisterWrite,
        CodecError,
    >)
        ensures
            (forall|j: int|
                0 <= j < old(self).tags@.len() ==> #[trigger] old(self).tags@[j].id
                    != tag_to_write.tag_id) ==> r is Err && r->Err_0@ == Fault::NotFound
                && *final(self) == *old(self),
            match first_tag_index(old(self).tags@, tag_to_write.tag_id, 0) {
                None => r is Err && r->Err_0@ == Fault::NotFound && *final(self) == *old(self),
                Some(i) => {
                    let t = old(self).tags@[i];
                    &&& final(self).same_settings(*old(self))
                    &&& final(self).status == old(self).status
                    &&& final(self).last_poll_time == old(self).last_poll_time
                    &&& final(self).tags@.len() == old(self).tags@.len()
                    &&& forall|j: int|
                        0 <= j < old(self).tags@.len() && j != i ==> #[trigger] final(self).tags@[j]
                            == old(self).tags@[j]
                    &&& final(self).tags@[i].same_identity(t)
                    &&& final(self).tags@[i].value == t.value
                    &&& final(self).tags@[i].status is Normal
                    &&& match write_plan_spec(session, t.address, t.value, tag_to_write.value) {
                        Ok(w) => r == Ok::<RegisterWrite, CodecError>(w),
                        Err(f) => r is Err && r->Err_0@ == f,
                    }
                },
            },
    {
        proof {
            lemma_first_tag_index_none(self.tags@, tag_to_write.tag_id, 0);
        }
        let n = self.tags.len();
        let mut i: usize = 0;
        while i < n
            invariant
                i <= n,
                n == self.tags@.len(),
                *self == *old(self),
                first_tag_index(self.tags@, tag_to_write.tag_id, 0) == first_tag_index(
                    self.tags@,
                    tag_to_write.tag_id,
                    i as int,
                ),
            decreases n - i,
        {
            if self.tags[i].id == tag_to_write.tag_id {
                return self.tags[i].write(session, tag_to_write.value);
            }
            i = i + 1;
        }
        Err(CodecError::NotFound)
    }

    /// Replaces the whole link record by `link_update`.
    pub fn reconfigure(&mut self, link_update: DeviceLink)
        ensures
            *final(self) == link_update,
    {
        *self = link_update;
    }
}

/// No tag at or after `from` has the id `id` exactly when the search finds none.
pub proof fn lemma_first_tag_index_none(tags: Seq<Tag>, id: usize, from: int)
    requires
        0 <= from,
    ensures
        first_tag_index(tags, id, from) is None <==> forall|j: int|
            from <= j < tags.len() ==> #[trigger] tags[j].id != id,
    decreases tags.len() - from,
{
    if from < tags.len() {
        lemma_first_tag_index_none(tags, id, from + 1);
        if first_tag_index(tags, id, from) is None {
            assert forall|j: int| from <= j < tags.len() implies #[trigger] tags[j].id != id by {
                if j > from {
                    assert(tags[j].id != id);
                }
            }
        }
    }
}

/// The last failing enabled tag among the first `n` decides the failure text.
proof fn lemma_last_failure_at(tags: Seq<Tag>, session: Family, replies: Seq<ReadReply>, n: int, k: int)
    requires
        0 <= k < n <= tags.len(),
        tag_poll_outcome(tags[k], session, replies, k) is Some,
        tag_poll_outcome(tags[k], session, replies, k)->Some_0 is Err,
        forall|j: int|
            k < j < n ==> !(#[trigger] tag_poll_outcome(tags[j], session, replies, j) matches Some(
                Err(_),
            )),
    ensures
        last_failure(tags, session, replies, n) == Some(
            link_failure_message(
                tags[k].id,
                tag_poll_outcome(tags[k], session, replies, k)->Some_0->Err_0,
            ),
        ),
    decreases n,
{
    if n - 1 > k {
        assert(!(tag_poll_outcome(tags[n - 1], session, replies, n - 1) matches Some(Err(_))));
        lemma_last_failure_at(tags, session, replies, n - 1, k);
    }
}

/// With no failing enabled tag among the first `n`, there is no failure text.
proof fn lemma_no_failure(tags: Seq<Tag>, session: Family, replies: Seq<ReadReply>, n: int)
    requires
        0 <= n <= tags.len(),
        forall|j: int|
            0 <= j < n ==> !(#[trigger] tag_poll_outcome(tags[j], session, replies, j) matches Some(
                Err(_),
            )),
    ensures
        last_failure(tags, session, replies, n) is None,
    decreases n,
{
    if n > 0 {
        assert(!(tag_poll_outcome(tags[n - 1], session, replies, n - 1) matches Some(Err(_))));
        lemma_no_failure(tags, session, replies, n - 1);
    }
}

/// Two reply lists that agree on the enabled tags give the same failure text.
proof fn lemma_last_failure_enabled_only(
    tags: Seq<Tag>,
    session: Family,
    replies: Seq<ReadReply>,
    other: Seq<ReadReply>,
    n: int,
)
    requires
        0 <= n <= tags.len(),
        forall|j: int|
            0 <= j < tags.len() && (#[trigger] tags[j]).enabled ==> reply_at(replies, j) == reply_at(
                other,
                j,
            ),
    ensures
        last_failure(tags, session, replies, n) == last_failure(tags, session, other, n),
    decreases n,
{
    if n > 0 {
        let t = tags[n - 1];
        assert(tag_poll_outcome(t, session, replies, n - 1) == tag_poll_outcome(t, session, other, n - 1));
        lemma_last_failure_enabled_only(tags, session, replies, other, n - 1);
    }
}

/// A poll pass never reads a disabled tag: its value stays, its status
/// becomes `Error("not enabled")` whatever the session answered, and the
/// link status depends on the enabled tags alone: two passes whose replies
/// agree on every enabled tag end with the same link status text.
pub proof fn lemma_disabled_tags_are_skipped(
    old: DeviceLink,
    new: DeviceLink,
    session: Family,
    replies: Seq<ReadReply>,
    now: i64,
    other_replies: Seq<ReadReply>,
    i: int,
)
    requires
        new.polled_from(old, session, replies, now),
        0 <= i < old.tags@.len(),
        !old.tags@[i].enabled,
        forall|j: int|
            0 <= j < old.tags@.len() && (#[trigger] old.tags@[j]).enabled ==> reply_at(replies, j)
                == reply_at(other_replies, j),
    ensures
        tag_poll_outcome(old.tags@[i], session, other_replies, i) is None,
        new.tags@[i].value == old.tags@[i].value,
        new.tags@[i].status.is_error_with(not_enabled_message()),
        last_failure(old.tags@, session, replies, old.tags@.len() as int) == last_failure(
            old.tags@,
            session,
            other_replies,
            old.tags@.len() as int,
        ),
{
    assert(new.tags@[i].polled_from(old.tags@[i], session, replies, i));
    lemma_last_failure_enabled_only(old.tags@, session, replies, other_replies, old.tags@.len() as int);
}

/// When the enabled tag at `k` fails and no enabled tag after it does, the
/// pass ends with the link in `Error`, carrying that tag's failure text, and
/// the poll time is stamped all the same.
pub proof fn lemma_failure_escalates_to_link(
    old: DeviceLink,
    new: DeviceLink,
    session: Family,
    replies: Seq<ReadReply>,
    now: i64,
    k: int,
)
    requires
        new.polled_from(old, session, replies, now),
        0 <= k < old.tags@.len(),
        tag_poll_outcome(old.tags@[k], session, replies, k) is Some,
        tag_poll_outcome(old.tags@[k], session, replies, k)->Some_0 is Err,
        forall|j: int|
            k < j < old.tags@.len() ==> !(#[trigger] tag_poll_outcome(
                old.tags@[j],
                session,
                replies,
                j,
            ) matches Some(Err(_))),
    ensures
        new.status.is_error_with(
            link_failure_message(
                old.tags@[k].id,
                tag_poll_outcome(old.tags@[k], session, replies, k)->Some_0->Err_0,
            ),
        ),
        new.tags@[k].status.is_error_with(
            tag_poll_outcome(old.tags@[k], session, replies, k)->Some_0->Err_0.message(),
        ),
        new.last_poll_time == now,
{
    lemma_last_failure_at(old.tags@, session, replies, old.tags@.len() as int, k);
    assert(new.tags@[k].polled_from(old.tags@[k], session, replies, k));
}

/// When no enabled tag fails, the pass ends with the link `Normal`.
pub proof fn lemma_clean_pass_is_normal(
    old: DeviceLink,
    new: DeviceLink,
    session: Family,
    replies: Seq<ReadReply>,
    now: i64,
)
    requires
        new.polled_from(old, session, replies, now),
        forall|j: int|
            0 <= j < old.tags@.len() ==> !(#[trigger] tag_poll_outcome(
                old.tags@[j],
                session,
                replies,
                j,
            ) matches Some(Err(_))),
    ensures
        new.status is Normal,
{
    lemma_no_failure(old.tags@, session, replies, old.tags@.len() as int);
}

/// A reconfiguration takes full effect: a poll pass after `reconfigure`
/// works on the new tag list through the new protocol, and the old record
/// plays no part in it.
pub proof fn lemma_reconfigure_then_poll(
    old: DeviceLink,
    update: DeviceLink,
    reconfigured: DeviceLink,
    polled: DeviceLink,
    replies: Seq<ReadReply>,
    now: i64,
)
    requires
        reconfigured == update,
        polled.polled_from(reconfigured, protocol_family(reconfigured.protocol), replies, now),
    ensures
        polled.protocol == update.protocol,
        polled.tags@.len() == update.tags@.len(),
        forall|i: int|
            0 <= i < update.tags@.len() ==> #[trigger] polled.tags@[i].polled_from(
                update.tags@[i],
                protocol_family(update.protocol),
                replies,
                i,
            ),
        match last_failure(update.tags@, protocol_family(update.protocol), replies, update.tags@.len() as int) {
            None => polled.status is Normal,
            Some(m) => polled.status.is_error_with(m),
        },
{
}

} // verus!
