//! Client-side logic for the Steam Web API's Workshop endpoints.
//!
//! The library describes every outbound call as a plain [`Request`] value and
//! turns the decoded parts of each answer back into typed results. Sending the
//! request and decoding the JSON body is left to the caller's HTTP transport.

pub mod decimal;
pub mod item;
pub mod request;
pub mod response;
pub mod search;
pub mod workshop;

pub use decimal::{decimal_string, parse_u64};
pub use item::{ItemResponse, WorkshopItem, WorkshopItemTag, WorkshopSearchItem};
pub use request::{HttpMethod, Request};
pub use search::{PublishedFileQueryType, QueryType, SearchOptions, SearchTagOptions};
pub use workshop::{is_vpk_file_name, Error, SteamWorkshop};
pub use response::{
    can_subscribe_answer, collection_children, published_items, search_results, CollectionChild,
    CollectionDetails, CollectionResponse, DetailEntry, SearchResponse,
};
