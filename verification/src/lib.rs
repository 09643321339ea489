//! Composition of request handlers.
//!
//! A [`Service`] processes one request at a time through a shared reference.
//! A [`MakeService`] builds services and may carry state over from the
//! service it replaces. Factories are nested with a [`stack::FactoryStack`],
//! chosen between with an [`either::Either`], and stored behind one concrete
//! type with [`BoxedService`] and its relatives.
//!
//! Every trait carries, next to each executable method, specification
//! functions that say what the method may return. The combinators of this
//! crate define theirs from those of the parts they are built from, so the
//! behaviour of a whole chain can be read off its type.

pub mod either;
pub mod layer;
pub mod stack;
pub mod utils;

mod boxed;
mod make_service;
mod map;
mod param;
mod service;

pub use boxed::apart;
pub use boxed::types_apart;
pub use boxed::BoxService;
pub use boxed::BoxServiceFactory;
pub use boxed::BoxedAsyncMakeService;
pub use boxed::BoxedService;
pub use make_service::ArcMakeBoxedService;
pub use make_service::ArcMakeService;
pub use make_service::AsyncMakeService;
pub use make_service::AsyncMakeServiceWrapper;
pub use make_service::BoxedMakeBoxedService;
pub use make_service::BoxedMakeService;
pub use make_service::DynMakeService;
pub use make_service::MakeService;
pub use map::MapTarget;
pub use map::MapTargetService;
pub use param::Param;
pub use param::ParamMaybeMut;
pub use param::ParamMaybeRef;
pub use param::ParamMut;
pub use param::ParamRef;
pub use param::ParamRemove;
pub use param::ParamSet;
pub use param::ParamTake;
pub use service::Service;
