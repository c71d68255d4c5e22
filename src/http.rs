//! Responses of the native HTTP client.
use vstd::prelude::*;
use std::collections::HashMap;

verus! {

/// A response as the native HTTP client hands it on.
#[derive(Debug, Clone)]
pub struct HttpResponse {
    pub status: u16,
    pub headers: HashMap<String, String>,
    pub body: String,
}

} // verus!
