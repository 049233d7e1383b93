//! Card and cardsheet image pipeline: layout arithmetic, HTML documents,
//! converter invocation plans, artwork retrieval plans and the error taxonomy
//! of the card service.

pub mod errors;
pub mod image;
pub mod models;
pub mod route;
pub mod text;
