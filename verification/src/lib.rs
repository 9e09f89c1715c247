//! Verified client core for a paginated, read-only catalog service.
//!
//! The library builds search requests, classifies every outcome of an
//! HTTP exchange into one error taxonomy, and merges the pages of a
//! bulk fetch.  The network itself is driven by the surrounding
//! application; everything the library decides is stated in contracts.

use vstd::prelude::*;

pub mod card;
pub mod request;
pub mod responses;
pub mod set;
pub mod shared;
pub mod text;

pub use crate::card::Ability;
pub use crate::card::AncientTrait;
pub use crate::card::Attack;
pub use crate::card::CardImage;
pub use crate::card::Resistance;
pub use crate::card::Weakness;
pub use crate::request::MultiRequester;
pub use crate::request::ParameterNames;
pub use crate::request::PreparedRequest;
pub use crate::request::RawReply;
pub use crate::request::Requester;
pub use crate::request::SearchOptions;
pub use crate::responses::errors::ErrorKind;
pub use crate::responses::errors::RequestError;
pub use crate::responses::errors::ResponseError;
pub use crate::responses::Many;
pub use crate::responses::Single;
pub use crate::set::SetData;
pub use crate::set::SetImage;
pub use crate::set::Sets;
pub use crate::shared::Legality;

verus! {

/// The result type of every executor call: a decoded value or one
/// classified error.
pub type ResponseResult<T> = Result<T, ResponseError>;

/// Largest page size the remote service accepts; larger requests are
/// clamped down to it.
pub const MAX_PAGE_SIZE: u8 = 250;

} // verus!
