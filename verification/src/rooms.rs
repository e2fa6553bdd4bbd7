//! Room administration, one submodule per group of endpoints.

pub mod admin;
pub mod block;
pub mod delete;
pub mod event_context;
pub mod extremities;
pub mod list;
pub mod members;
pub mod messages;
pub mod room_details;
pub mod state;
pub mod timestamp_to_event;

pub use block::RoomBlocked;
pub use delete::{DeleteRoomBody, DeleteRoomPurgeStatus, DeleteRoomV1Response};
pub use event_context::EventContext;
pub use extremities::{RoomExtremities, RoomExtremity};
pub use list::{GetRoomsQuery, OrderRoomsBy, Room, RoomsQueryResponse};
pub use members::RoomMembers;
pub use messages::{GetRoomMessagesQuery, RoomMessages};
pub use room_details::RoomDetails;
pub use timestamp_to_event::TimestampToEventQuery;
