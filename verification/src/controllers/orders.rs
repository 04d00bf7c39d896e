//! Orders: the request models for creating and updating one, and their
//! builders.
pub mod create;
pub mod draft;
pub mod lines;
pub mod update;

pub use create::CreateOrder;
pub use create::CreateOrderBuilder;
pub use create::CreateOrderView;
pub use draft::OrderDraft;
pub use lines::OrderCouponLineCreate;
pub use lines::OrderFeeLineCreate;
pub use lines::OrderLineItemCreate;
pub use lines::ShippingLineCreate;
pub use update::UpdateOrder;
pub use update::UpdateOrderBuilder;
