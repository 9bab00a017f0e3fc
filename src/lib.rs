//! A small markdown wiki: a store of articles keyed by identifier, and the
//! pipeline that turns an article, a listing or an absence into a response.

pub mod article_provider;
pub mod render;
pub mod response;
pub mod handlers;
