//! Device-link engine of an industrial protocol gateway: the protocol,
//! address and value model, the register codec, the polling pass of a link,
//! the shared link table and the decisions of the per-link polling task.

pub mod model;
pub mod codec;
pub mod text;
pub mod device_link;
pub mod store;
pub mod task;

pub use codec::{
    combine_registers, decode_reply, read_plan, split_register_pair, write_plan, ReadReply,
    RegisterRead, RegisterTable, RegisterWrite,
};
pub use device_link::{DeviceLink, Tag, TagWriteInfo};
pub use model::{
    CodecError, EipConfig, Family, LinkStatus, ModbusRegister, ModbusSerialConfig,
    ModbusTcpConfig, OpcUaConfig, ParityType, Protocol, S7Addr, S7Config, TagAddress, TagStatus,
    TagValue,
};
pub use store::{
    get_device_link, get_tag, publish_if_current, publish_link, reconfigure_device_link, snapshot_device_link, Link,
    LinkIdQuery, TagIdQuery,
};
pub use task::{after_connect, after_poll, after_publish, TaskMessage, TaskStep, TaskType, RECONNECT_BACKOFF_MS};
