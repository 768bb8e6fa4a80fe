//! The webhook handler: which requests it turns away, what it answers, and
//! what it leaves in the error log.

use crate::form::{
    lemma_none_undecodable, part_views, process_form_data, processed, submitted, OrderView, Part,
    PartView, SaveOrder, MISSING_IMAGE,
};
use crate::log::{error_handler, error_line, ErrorLog, ERROR_KEY};
use crate::text::{all_visible_ascii, ascii_chars, contains_text, header_text, occurs_in, text_eq};
use vstd::prelude::*;

verus! {

/// The only method that the webhook serves.
pub const POST: &'static str = "POST";

/// What a content type must hold, anywhere in its value, to be admitted.
pub const MULTIPART: &'static str = "multipart/form-data";

/// What the handler reads of a request before it touches the body.
#[derive(Clone, Debug, PartialEq, Eq)]
pub struct Request {
    /// The method as sent; methods are case-sensitive.
    pub method: String,
    /// The bytes of the first `content-type` header value, if there is one.
    pub content_type: Option<Vec<u8>>,
}

/// What a `Request` holds.
pub struct RequestView {
    pub method: Seq<char>,
    pub content_type: Option<Seq<u8>>,
}

impl View for Request {
    type V = RequestView;

    open spec fn view(&self) -> RequestView {
        RequestView {
            method: self.method@,
            content_type: match self.content_type {
                Some(value) => Some(value@),
                None => None,
            },
        }
    }
}

/// A status code and a body.
#[derive(Clone, Debug, PartialEq, Eq)]
pub struct Response {
    pub status: u16,
    pub body: String,
}

/// What a `Response` holds.
pub struct ResponseView {
    pub status: u16,
    pub body: Seq<char>,
}

impl View for Response {
    type V = ResponseView;

    open spec fn view(&self) -> ResponseView {
        ResponseView { status: self.status, body: self.body@ }
    }
}

impl ResponseView {
    /// 405 with an empty body.
    pub open spec fn method_not_allowed() -> ResponseView {
        ResponseView { status: 405, body: Seq::empty() }
    }

    /// 400 with an empty body.
    pub open spec fn bad_request() -> ResponseView {
        ResponseView { status: 400, body: Seq::empty() }
    }

    /// 200 with the body `OK`.
    pub open spec fn ok() -> ResponseView {
        ResponseView { status: 200, body: "OK"@ }
    }
}

impl Response {
    /// 405 with an empty body.
    pub fn method_not_allowed() -> (response: Response)
        ensures
            response@ == ResponseView::method_not_allowed(),
    {
        Response { status: 405, body: String::new() }
    }

    /// 400 with an empty body.
    pub fn bad_request() -> (response: Response)
        ensures
            response@ == ResponseView::bad_request(),
    {
        Response { status: 400, body: String::new() }
    }

    /// 200 with the body `OK`.
    pub fn ok() -> (response: Response)
        ensures
            response@ == ResponseView::ok(),
    {
        Response { status: 200, body: String::from_str("OK") }
    }
}

impl RequestView {
    /// Whether the method is exactly `POST`.
    pub open spec fn is_post(self) -> bool {
        self.method == POST@
    }

    /// Whether a content type is present, reads as visible ASCII, and holds
    /// `MULTIPART` somewhere in it. Parameters such as the boundary are not
    /// looked at.
    pub open spec fn is_multipart(self) -> bool {
        self.content_type matches Some(value) && all_visible_ascii(value) && occurs_in(
            MULTIPART@,
            ascii_chars(value),
        )
    }

    /// The response that turns the request away before its body is read:
    /// 405 for any method but `POST`, else 400 for a content type that is
    /// not multipart. `None` when the body is to be read.
    pub open spec fn refusal(self) -> Option<ResponseView> {
        if !self.is_post() {
            Some(ResponseView::method_not_allowed())
        } else if !self.is_multipart() {
            Some(ResponseView::bad_request())
        } else {
            None
        }
    }
}

impl Request {
    /// Whether the content type admits the request.
    pub fn is_multipart(&self) -> (yes: bool)
        ensures
            yes == self@.is_multipart(),
    {
        match &self.content_type {
            None => false,
            Some(value) => {
                let text = match header_text(value.as_slice()) {
                    Some(text) => text,
                    None => String::new(),
                };
                proof {
                    // The marker is not empty, so the empty text does not hold it.
                    reveal_strlit("multipart/form-data");
                }
                contains_text(text.as_str(), MULTIPART)
            },
        }
    }

    /// The response that turns the request away, if it is turned away.
    /// The caller asks this before it reads the body, and reads the body
    /// only on `None`.
    pub fn refusal(&self) -> (response: Option<Response>)
        ensures
            match response {
                Some(r) => self@.refusal() == Some(r@),
                None => self@.refusal() is None,
            },
    {
        if !text_eq(self.method.as_str(), POST) {
            Some(Response::method_not_allowed())
        } else if !self.is_multipart() {
            Some(Response::bad_request())
        } else {
            None
        }
    }
}

/// What the handler decides for one request.
#[derive(Clone, Debug, PartialEq, Eq)]
pub struct Reply {
    /// The response to send.
    pub response: Response,
    /// The image to write to `IMAGE_PATH`, if the submission calls for one.
    pub save: Option<SaveOrder>,
    /// The line to print for a failure that went to the error log.
    pub notice: Option<String>,
}

/// What a `Reply` holds.
pub struct ReplyView {
    pub response: ResponseView,
    pub save: Option<OrderView>,
    pub notice: Option<Seq<char>>,
}

impl View for Reply {
    type V = ReplyView;

    open spec fn view(&self) -> ReplyView {
        ReplyView {
            response: self.response@,
            save: match self.save {
                Some(order) => Some(order@),
                None => None,
            },
            notice: match self.notice {
                Some(line) => Some(line@),
                None => None,
            },
        }
    }
}

/// The reply to a request with the given body. A request that is turned
/// away gets its refusal and nothing else. Any other request is answered
/// 200 `OK`, whatever became of the submission: a save is ordered when the
/// submission calls for one, and a failure shows only in the notice.
pub open spec fn reply_to(request: RequestView, body: Seq<PartView>) -> ReplyView {
    match request.refusal() {
        Some(response) => ReplyView { response, save: None, notice: None },
        None => match processed(body) {
            Ok(order) => ReplyView {
                response: ResponseView::ok(),
                save: Some(order),
                notice: None,
            },
            Err(failure) => ReplyView {
                response: ResponseView::ok(),
                save: None,
                notice: Some(error_line(failure.message())),
            },
        },
    }
}

/// The error log after a request with the given body: the failure's message
/// under `ERROR_KEY` when an admitted submission fails, else the log as it
/// was.
pub open spec fn log_after(
    request: RequestView,
    body: Seq<PartView>,
    log: Map<Seq<char>, Seq<char>>,
) -> Map<Seq<char>, Seq<char>> {
    if request.refusal() is None {
        match processed(body) {
            Ok(_) => log,
            Err(failure) => log.insert(ERROR_KEY@, failure.message()),
        }
    } else {
        log
    }
}

/// Handles one request whose body has been read into `body`.
///
/// The reply never shows whether the submission was accepted: only the
/// method and the content type can change the status. When the reply
/// orders a save, the caller writes the image and reports the result to
/// `image_written`.
pub fn handle_webhook(request: &Request, body: Vec<Part>, log: &mut ErrorLog) -> (reply: Reply)
    ensures
        reply@ == reply_to(request@, part_views(body@)),
        final(log)@ == log_after(request@, part_views(body@), old(log)@),
{
    match request.refusal() {
        Some(response) => Reply { response, save: None, notice: None },
        None => match process_form_data(body) {
            Ok(order) => Reply { response: Response::ok(), save: Some(order), notice: None },
            Err(failure) => {
                let line = error_handler(log, failure.message());
                Reply { response: Response::ok(), save: None, notice: Some(line) }
            },
        },
    }
}

/// Takes the result of writing the image that `order` asked for and returns
/// the line to print: the success line after a full write; after a failed
/// one, whose description is `written`'s error, the failure line, with the
/// description filed in the error log.
pub fn image_written(order: &SaveOrder, written: Result<(), String>, log: &mut ErrorLog) -> (line:
    String)
    ensures
        match written {
            Ok(()) => line@ == order@.success_line() && final(log)@ == old(log)@,
            Err(description) => line@ == error_line(description@) && final(log)@ == old(
                log,
            )@.insert(ERROR_KEY@, description@),
        },
{
    match written {
        Ok(()) => order.success_line(),
        Err(description) => error_handler(log, description.as_str()),
    }
}

/// Whether a request with this body is admitted and every text part of the
/// body decodes.
pub open spec fn well_formed(request: RequestView, body: Seq<PartView>) -> bool {
    &&& request.is_post()
    &&& request.is_multipart()
    &&& forall|i: int| 0 <= i < body.len() ==> !(#[trigger] body[i]).undecodable()
}

/// The content of the image file once the caller has carried out `reply`
/// in full: a save replaces whatever was there by the image, and a reply
/// without a save leaves the file as it was, absent or not.
pub open spec fn image_after(before: Option<Seq<u8>>, reply: ReplyView) -> Option<Seq<u8>> {
    match reply.save {
        Some(order) => Some(order.image),
        None => before,
    }
}

/// The content of the image file once the replies have been carried out in
/// full, one after another in the order given.
pub open spec fn image_after_all(before: Option<Seq<u8>>, replies: Seq<ReplyView>) -> Option<
    Seq<u8>,
>
    decreases replies.len(),
{
    if replies.len() == 0 {
        before
    } else {
        image_after(image_after_all(before, replies.drop_last()), replies.last())
    }
}

/// Any method but `POST` is answered 405 with an empty body, whatever the
/// headers and the body hold; nothing is saved or logged.
pub proof fn lemma_other_method_is_not_allowed(
    request: RequestView,
    body: Seq<PartView>,
    log: Map<Seq<char>, Seq<char>>,
)
    requires
        request.method != POST@,
    ensures
        reply_to(request, body).response.status == 405,
        reply_to(request, body).response.body.len() == 0,
        reply_to(request, body).save is None,
        reply_to(request, body).notice is None,
        log_after(request, body, log) == log,
{
}

/// A `POST` whose content type is absent, or does not read as text that
/// holds `multipart/form-data`, is answered 400 with an empty body,
/// whatever the body holds; nothing is saved or logged.
pub proof fn lemma_other_content_type_is_bad_request(
    request: RequestView,
    body: Seq<PartView>,
    log: Map<Seq<char>, Seq<char>>,
)
    requires
        request.method == POST@,
        !request.is_multipart(),
    ensures
        reply_to(request, body).response.status == 400,
        reply_to(request, body).response.body.len() == 0,
        reply_to(request, body).save is None,
        reply_to(request, body).notice is None,
        log_after(request, body, log) == log,
{
}

/// A request that is not turned away is answered 200 `OK`, whatever
/// becomes of its submission.
pub proof fn lemma_admitted_is_answered_ok(request: RequestView, body: Seq<PartView>)
    requires
        request.is_post(),
        request.is_multipart(),
    ensures
        reply_to(request, body).response == ResponseView::ok(),
{
}

/// A well-formed submission with status `200` and an image is answered
/// 200 `OK` and the error log stays as it was. Once the reply has been
/// carried out, the image file holds exactly the bytes of the last
/// `res_image` part, whatever it held before.
pub proof fn lemma_image_is_saved(
    request: RequestView,
    body: Seq<PartView>,
    image: Seq<u8>,
    before: Option<Seq<u8>>,
    log: Map<Seq<char>, Seq<char>>,
)
    requires
        well_formed(request, body),
        submitted(body).status == "200"@,
        submitted(body).res_image == Some(image),
    ensures
        reply_to(request, body).response == ResponseView::ok(),
        reply_to(request, body).notice is None,
        image_after(before, reply_to(request, body)) == Some(image),
        log_after(request, body, log) == log,
{
    lemma_none_undecodable(body);
}

/// A well-formed submission whose status is anything but exactly `200` is
/// answered 200 `OK`, the image file stays as it was, and the error log
/// afterwards holds the submission's message, empty or not.
pub proof fn lemma_other_status_is_logged(
    request: RequestView,
    body: Seq<PartView>,
    before: Option<Seq<u8>>,
    log: Map<Seq<char>, Seq<char>>,
)
    requires
        well_formed(request, body),
        submitted(body).status != "200"@,
    ensures
        reply_to(request, body).response == ResponseView::ok(),
        image_after(before, reply_to(request, body)) == before,
        log_after(request, body, log).contains_key(ERROR_KEY@),
        log_after(request, body, log)[ERROR_KEY@] == submitted(body).img_message,
        reply_to(request, body).notice == Some(error_line(submitted(body).img_message)),
{
    lemma_none_undecodable(body);
}

/// A well-formed submission with status `200` and no image is answered
/// 200 `OK`, the image file stays as it was, and the error log afterwards
/// holds exactly `resImage is not a file`.
pub proof fn lemma_missing_image_is_logged(
    request: RequestView,
    body: Seq<PartView>,
    before: Option<Seq<u8>>,
    log: Map<Seq<char>, Seq<char>>,
)
    requires
        well_formed(request, body),
        submitted(body).status == "200"@,
        submitted(body).res_image is None,
    ensures
        reply_to(request, body).response == ResponseView::ok(),
        image_after(before, reply_to(request, body)) == before,
        log_after(request, body, log).contains_key(ERROR_KEY@),
        log_after(request, body, log)[ERROR_KEY@] == MISSING_IMAGE@,
        reply_to(request, body).notice == Some(error_line(MISSING_IMAGE@)),
{
    lemma_none_undecodable(body);
}

/// The image is saved if and only if the request is admitted, every text
/// part decodes, the status is `200` and an image is present.
pub proof fn lemma_saved_iff_called_for(request: RequestView, body: Seq<PartView>)
    ensures
        reply_to(request, body).save is Some <==> well_formed(request, body) && submitted(body).status == "200"@ && submitted(body).res_image is Some,
{
    lemma_none_undecodable(body);
}

/// A second successful submission overwrites the first: once both replies
/// have been carried out in turn, the image file holds exactly the second
/// image, with nothing of the first left in it.
pub proof fn lemma_save_overwrites(
    request: RequestView,
    first: Seq<PartView>,
    second: Seq<PartView>,
    image: Seq<u8>,
    before: Option<Seq<u8>>,
)
    requires
        well_formed(request, first),
        submitted(first).status == "200"@,
        submitted(first).res_image is Some,
        well_formed(request, second),
        submitted(second).status == "200"@,
        submitted(second).res_image == Some(image),
    ensures
        image_after(image_after(before, reply_to(request, first)), reply_to(request, second))
            == Some(image),
{
    lemma_none_undecodable(second);
}

/// When saves are carried out one after another, each in full, the image
/// file ends up holding the image of the last one, whole. This says
/// nothing of writes that overlap in time: the library does not order
/// them, and a caller that writes from several requests at once has to.
pub proof fn lemma_last_save_stands(before: Option<Seq<u8>>, replies: Seq<ReplyView>)
    requires
        replies.len() > 0,
        forall|i: int| 0 <= i < replies.len() ==> (#[trigger] replies[i]).save is Some,
    ensures
        image_after_all(before, replies) == Some(replies.last().save.unwrap().image),
{
}

/// The handler writes the error log under one key only: a log that held
/// nothing under another key still holds nothing under another key, and
/// so has at most one entry.
pub proof fn lemma_log_has_one_key(
    request: RequestView,
    body: Seq<PartView>,
    log: Map<Seq<char>, Seq<char>>,
)
    requires
        log.dom().subset_of(set![ERROR_KEY@]),
    ensures
        log_after(request, body, log).dom().subset_of(set![ERROR_KEY@]),
        log_after(request, body, log).dom().finite(),
        log_after(request, body, log).len() <= 1,
{
    let after = log_after(request, body, log);
    let one = set![ERROR_KEY@];
    assert(after.dom().subset_of(one));
    vstd::set_lib::lemma_len_subset(after.dom(), one);
}

} // verus!
