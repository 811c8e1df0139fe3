//! Request/response protocol between a GATT server's transport layer and the
//! handlers of its attributes (characteristics and descriptors).
pub mod channel;
pub mod data_type;
pub mod event;
pub mod subscription;

pub use event::{
    ApplicationError, Event, EventSender, InvalidApplicationError, NotifySubscribe, ReadRequest,
    Response, ResponseSender, WriteRequest, APPLICATION_ERR_MAX, APPLICATION_ERR_MIN,
};
pub use subscription::Subscription;
pub use data_type::{GattDataType, TData};
