//! Client-side logic for the Voicebox jukebox web service: request
//! construction for each endpoint, the records it returns, and the walk
//! over a paged list endpoint.

pub mod api;
pub mod error;
pub mod paging;
pub mod query;
pub mod records;

pub use api::{ApiRequest, Method, Voicebox};
pub use error::Error;
pub use paging::{collect, Page};
pub use records::{FavoritesResponse, HistoryResponse, LoginResponse, Play, QueueResponse, Song};
