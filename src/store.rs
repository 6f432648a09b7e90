//! The shared link table: lookups by id for the gateway boundary and
//! replace-by-index for the polling tasks. The lock around the table belongs
//! to the caller; every operation here is bounded and does no I/O.

use vstd::prelude::*;
use crate::device_link::{first_tag_index, DeviceLink, Tag};
use crate::model::{CodecError, Fault};

verus! {

/// One entry of the link table. Only `Device` links are polled; the other
/// kinds are reserved.
#[derive(Clone, Debug, PartialEq, Eq)]
pub enum Link {
    Device(DeviceLink),
    Eval,
    InputDb,
    MbServer,
}

/// A lookup of a link by id.
#[derive(Clone, Copy, Debug, PartialEq, Eq, Structural)]
pub struct LinkIdQuery {
    pub link_id: u32,
}

/// A lookup of a tag by link id and tag id.
#[derive(Clone, Copy, Debug, PartialEq, Eq, Structural)]
pub struct TagIdQuery {
    pub link_id: u32,
    pub tag_id: u32,
}

/// Position of the first device link at or after `from` whose id is `id`.
pub open spec fn device_index(links: Seq<Link>, id: usize, from: int) -> Option<int>
    decreases links.len() - from,
{
    if from < 0 || from >= links.len() {
        None
    } else if links[from] matches Link::Device(d) && d.id == id {
        Some(from)
    } else {
        device_index(links, id, from + 1)
    }
}

/// The first (link position, tag position) pair, links in table order and
/// tags in list order, of a device link with the id `link_id` that holds a
/// tag with the id `tag_id`.
pub open spec fn tag_location(links: Seq<Link>, link_id: u32, tag_id: u32, from: int) -> Option<
    (int, int),
>
    decreases links.len() - from,
{
    if from < 0 || from >= links.len() {
        None
    } else {
        match links[from] {
            Link::Device(d) => {
                if d.id == link_id as usize && first_tag_index(d.tags@, tag_id as usize, 0) is Some {
                    Some((from, first_tag_index(d.tags@, tag_id as usize, 0)->Some_0))
                } else {
                    tag_location(links, link_id, tag_id, from + 1)
                }
            },
            _ => tag_location(links, link_id, tag_id, from + 1),
        }
    }
}

/// The device link that `query` names: the first in table order.
pub fn get_device_link<'a>(links: &'a Vec<Link>, query: &LinkIdQuery) -> (r: Result<
    &'a DeviceLink,
    CodecError,
>)
    ensures
        match device_index(links@, query.link_id as usize, 0) {
            None => r is Err && r->Err_0@ == Fault::NotFound,
            Some(i) => r is Ok && links@[i] == Link::Device(*r->Ok_0),
        },
{
    let n = links.len();
    let mut i: usize = 0;
    while i < n
        invariant
            i <= n,
            n == links@.len(),
            device_index(links@, query.link_id as usize, 0) == device_index(
                links@,
                query.link_id as usize,
                i as int,
            ),
        decreases n - i,
    {
        match &links[i] {
            Link::Device(d) => {
                if d.id == query.link_id as usize {
                    return Ok(d);
                }
            },
            _ => {},
        }
        i = i + 1;
    }
    Err(CodecError::NotFound)
}

/// A found tag position lies in the list.
proof fn lemma_first_tag_index_range(tags: Seq<Tag>, tag_id: usize, from: int)
    ensures
        first_tag_index(tags, tag_id, from) matches Some(j) ==> from <= j < tags.len(),
    decreases tags.len() - from,
{
    if 0 <= from < tags.len() && tags[from].id != tag_id {
        lemma_first_tag_index_range(tags, tag_id, from + 1);
    }
}

/// Position of the first tag of `tags` whose id is `tag_id`.
fn find_tag(tags: &Vec<Tag>, tag_id: usize) -> (r: Option<usize>)
    ensures
        match r {
            None => first_tag_index(tags@, tag_id, 0) is None,
            Some(j) => first_tag_index(tags@, tag_id, 0) == Some(j as int) && j < tags@.len(),
        },
{
    proof {
        lemma_first_tag_index_range(tags@, tag_id, 0);
    }
    let n = tags.len();
    let mut j: usize = 0;
    while j < n
        invariant
            j <= n,
            n == tags@.len(),
            first_tag_index(tags@, tag_id, 0) == first_tag_index(tags@, tag_id, j as int),
        decreases n - j,
    {
        if tags[j].id == tag_id {
            return Some(j);
        }
        j = j + 1;
    }
    None
}

/// The tag that `query` names: the first matching tag of the first matching
/// device link that has one.
pub fn get_tag<'a>(links: &'a Vec<Link>, query: &TagIdQuery) -> (r: Result<&'a Tag, CodecError>)
    ensures
        match tag_location(links@, query.link_id, query.tag_id, 0) {
            None => r is Err && r->Err_0@ == Fault::NotFound,
            Some((i, j)) => r is Ok && links@[i] is Device && *r->Ok_0
                == links@[i]->Device_0.tags@[j],
        },
{
    let n = links.len();
    let mut i: usize = 0;
    while i < n
        invariant
            i <= n,
            n == links@.len(),
            tag_location(links@, query.link_id, query.tag_id, 0) == tag_location(
                links@,
                query.link_id,
                query.tag_id,
                i as int,
            ),
        decreases n - i,
    {
        match &links[i] {
            Link::Device(d) => {
                if d.id == query.link_id as usize {
                    match find_tag(&d.tags, query.tag_id as usize) {
                        Some(j) => {
                            assert(links@[i as int] == Link::Device(*d));
                            assert(d.id == query.link_id as usize);
                            assert(first_tag_index(d.tags@, query.tag_id as usize, 0) == Some(j as int));
                            assert(tag_location(links@, query.link_id, query.tag_id, i as int)
                                == Some((i as int, j as int)));
                            return Ok(&d.tags[j]);
                        },
                        None => {},
                    }
                }
            },
            _ => {},
        }
        i = i + 1;
    }
    Err(CodecError::NotFound)
}

/// Replaces, whole, the first device link whose id is `config.id` by
/// `config`; fails with `NotFound`, changing nothing, when there is none.
pub fn reconfigure_device_link(links: &mut Vec<Link>, config: DeviceLink) -> (r: Result<
    (),
    CodecError,
>)
    ensures
        match device_index(old(links)@, config.id, 0) {
            None => r is Err && r->Err_0@ == Fault::NotFound && final(links)@ == old(links)@,
            Some(i) => r is Ok && final(links)@ == old(links)@.update(i, Link::Device(config)),
        },
{
    let n = links.len();
    let mut i: usize = 0;
    while i < n
        invariant
            i <= n,
            n == links@.len(),
            links@ == old(links)@,
            device_index(links@, config.id, 0) == device_index(links@, config.id, i as int),
        decreases n - i,
    {
        let found = match &links[i] {
            Link::Device(d) => d.id == config.id,
            _ => false,
        };
        if found {
            let mut current = Link::Eval;
            std::mem::swap(&mut current, &mut links[i]);
            match current {
                Link::Device(mut d) => {
                    d.reconfigure(config);
                    links[i] = Link::Device(d);
                },
                _ => {},
            }
            return Ok(());
        }
        i = i + 1;
    }
    Err(CodecError::NotFound)
}

/// The device link at position `index` of the table, if that entry is one.
pub fn snapshot_device_link(links: &Vec<Link>, index: usize) -> (r: Option<&DeviceLink>)
    ensures
        match r {
            Some(d) => index < links@.len() && links@[index as int] == Link::Device(*d),
            None => index >= links@.len() || !(links@[index as int] is Device),
        },
{
    if index >= links.len() {
        return None;
    }
    match &links[index] {
        Link::Device(d) => Some(d),
        _ => None,
    }
}

/// Stores the link record `link` at position `index`, replacing the entry
/// there.
pub fn publish_link(links: &mut Vec<Link>, index: usize, link: Link)
    requires
        index < old(links)@.len(),
    ensures
        final(links)@ == old(links)@.update(index as int, link),
{
    links[index] = link;
}

/// The entry at `index` is a device link that is the same record as `seen`.
pub open spec fn entry_is(links: Seq<Link>, index: int, seen: DeviceLink) -> bool {
    &&& 0 <= index < links.len()
    &&& (links[index] matches Link::Device(d) && d.same_as(seen))
}

/// Stores the poll result `polled` at position `index` only if the entry
/// there is still the record `seen` that the task last read or wrote; else
/// someone replaced it meanwhile, nothing is stored, and `false` tells the
/// task that its copy is stale.
pub fn publish_if_current(links: &mut Vec<Link>, index: usize, seen: &DeviceLink, polled: Link) -> (r:
    bool)
    ensures
        r == entry_is(old(links)@, index as int, *seen),
        r ==> final(links)@ == old(links)@.update(index as int, polled),
        !r ==> final(links)@ == old(links)@,
{
    if index >= links.len() {
        return false;
    }
    let current = match &links[index] {
        Link::Device(d) => d.same(seen),
        _ => false,
    };
    if current {
        publish_link(links, index, polled);
    }
    current
}

} // verus!
