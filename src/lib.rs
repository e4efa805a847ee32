pub mod envelope;
pub mod errors;
pub mod response;
pub mod session;
pub mod types;

pub use envelope::{request_frame, Action};
pub use errors::TdbError;
pub use response::{
    decode_response, decode_response_many, reply_text, response_from_members, response_many_from_members, ListMember,
    Reply, TdbResponse, TdbResponseMany, TextMember,
};
pub use session::{endpoint_params, list_of_records, Handshake, TdbAuthParms, Tobsdb};
