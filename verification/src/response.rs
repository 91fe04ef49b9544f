use vstd::prelude::*;

verus! {

/// The response envelope shared by the list endpoints: the service's status
/// (`cod`), a message, the items found in server order (`found`) and the
/// registration codes the server could not resolve (`notFound`).
#[derive(Debug)]
pub struct ApiResponse<T> {
    pub status: usize,
    pub message: String,
    pub data: Vec<T>,
    pub not_found: Vec<usize>,
}

/// The envelope of an asynchronous submit: a correlation token
/// (`correlationId`) takes the place of the result lists.
#[derive(Debug)]
pub struct AsyncApiResponse<T> {
    pub status: usize,
    pub message: String,
    pub token: T,
}

} // verus!
