use vstd::prelude::*;

verus! {

/// Mathematical model of a response: a status code and the body's characters.
pub ghost struct ResponseModel {
    pub status: int,
    pub body: Seq<char>,
}

/// An HTTP response as the handlers produce it: a status code and a body.
/// The serving layer only has to put it on the wire.
pub struct HttpResponse {
    pub status: u16,
    pub body: String,
}

impl View for HttpResponse {
    type V = ResponseModel;

    open spec fn view(&self) -> ResponseModel {
        ResponseModel { status: self.status as int, body: self.body@ }
    }
}

/// The model of a client-error response: status 400, empty body.
pub open spec fn bad_request_model() -> ResponseModel {
    ResponseModel { status: 400, body: Seq::empty() }
}

/// The model of a not-found response: status 404, empty body.
pub open spec fn not_found_model() -> ResponseModel {
    ResponseModel { status: 404, body: Seq::empty() }
}

/// The response for a malformed path parameter.
pub fn bad_request_response() -> (resp: HttpResponse)
    ensures
        resp@ == bad_request_model(),
{
    HttpResponse { status: 400, body: String::new() }
}

/// The response for an id with no matching record.
pub fn not_found_response() -> (resp: HttpResponse)
    ensures
        resp@ == not_found_model(),
{
    HttpResponse { status: 404, body: String::new() }
}

} // verus!
