//! Multipart form submissions: collecting the parts and judging the result.

use crate::text::text_eq;
use vstd::prelude::*;
use vstd::utf8::*;

verus! {

/// The file that a saved image replaces, relative to the working directory.
pub const IMAGE_PATH: &'static str = "resImage.png";

/// The message of a submission that reports success but carries no image.
pub const MISSING_IMAGE: &'static str = "resImage is not a file";

/// The parts of a submission that the webhook reads.
#[derive(Clone, Copy, Debug, PartialEq, Eq, Structural)]
pub enum Field {
    Status,
    IdGen,
    TimeGen,
    ImgMessage,
    ResImage,
}

impl Field {
    /// Whether the part is decoded as UTF-8 text; the image is kept as bytes.
    pub open spec fn is_text(self) -> bool {
        !(self is ResImage)
    }

    /// The name of the part in the form.
    pub open spec fn spec_name(self) -> Seq<char> {
        match self {
            Field::Status => "status"@,
            Field::IdGen => "id_gen"@,
            Field::TimeGen => "time_gen"@,
            Field::ImgMessage => "img_message"@,
            Field::ResImage => "res_image"@,
        }
    }

    /// The name of the part in the form.
    pub fn name(&self) -> (name: &'static str)
        ensures
            name@ == self.spec_name(),
    {
        match self {
            Field::Status => "status",
            Field::IdGen => "id_gen",
            Field::TimeGen => "time_gen",
            Field::ImgMessage => "img_message",
            Field::ResImage => "res_image",
        }
    }
}

/// The field that a part's name selects, if it is one the webhook reads.
pub open spec fn field_named(name: Seq<char>) -> Option<Field> {
    if name == "status"@ {
        Some(Field::Status)
    } else if name == "id_gen"@ {
        Some(Field::IdGen)
    } else if name == "time_gen"@ {
        Some(Field::TimeGen)
    } else if name == "img_message"@ {
        Some(Field::ImgMessage)
    } else if name == "res_image"@ {
        Some(Field::ResImage)
    } else {
        None
    }
}

/// The field that a part's name selects, if it is one the webhook reads.
pub fn recognize(name: &str) -> (field: Option<Field>)
    ensures
        field == field_named(name@),
{
    if text_eq(name, "status") {
        Some(Field::Status)
    } else if text_eq(name, "id_gen") {
        Some(Field::IdGen)
    } else if text_eq(name, "time_gen") {
        Some(Field::TimeGen)
    } else if text_eq(name, "img_message") {
        Some(Field::ImgMessage)
    } else if text_eq(name, "res_image") {
        Some(Field::ResImage)
    } else {
        None
    }
}

/// Each field is selected by its own name, and by no other field's.
pub proof fn lemma_field_named_by_its_name(field: Field)
    ensures
        field_named(field.spec_name()) == Some(field),
{
    reveal_strlit("status");
    reveal_strlit("id_gen");
    reveal_strlit("time_gen");
    reveal_strlit("img_message");
    reveal_strlit("res_image");
    // The five names differ in length, but for `status` and `id_gen`,
    // which differ in their first character.
    assert("status"@.len() == 6 && "id_gen"@.len() == 6);
    assert("status"@[0] != "id_gen"@[0]);
    assert("time_gen"@.len() == 8);
    assert("img_message"@.len() == 11);
    assert("res_image"@.len() == 9);
}

/// One part of a multipart body, read to its end.
#[derive(Clone, Debug, PartialEq, Eq)]
pub struct Part {
    /// The name from the part's content disposition, if it gives one.
    pub name: Option<String>,
    /// The part's bytes, in the order received.
    pub data: Vec<u8>,
}

/// What a `Part` holds.
pub struct PartView {
    pub name: Option<Seq<char>>,
    pub data: Seq<u8>,
}

impl View for Part {
    type V = PartView;

    open spec fn view(&self) -> PartView {
        PartView {
            name: match self.name {
                Some(name) => Some(name@),
                None => None,
            },
            data: self.data@,
        }
    }
}

/// The views of a run of parts, in order.
pub open spec fn part_views(parts: Seq<Part>) -> Seq<PartView> {
    Seq::new(parts.len(), |i: int| parts[i]@)
}

impl PartView {
    /// The field that the part fills; a part without a name fills none.
    pub open spec fn field(self) -> Option<Field> {
        match self.name {
            Some(name) => field_named(name),
            None => None,
        }
    }

    /// Whether the part fills a text field with bytes that are not UTF-8.
    pub open spec fn undecodable(self) -> bool {
        self.field() matches Some(field) && field.is_text() && !valid_utf8(self.data)
    }
}

impl Part {
    /// A part that has no bytes yet.
    pub fn new(name: Option<String>) -> (part: Part)
        ensures
            part@ == (PartView {
                name: match name {
                    Some(n) => Some(n@),
                    None => None,
                },
                data: Seq::empty(),
            }),
    {
        Part { name, data: Vec::new() }
    }

    /// Appends the next chunk of the part's bytes.
    pub fn push_chunk(&mut self, chunk: &[u8])
        ensures
            final(self)@.name == old(self)@.name,
            final(self)@.data == old(self)@.data + chunk@,
    {
        self.data.extend_from_slice(chunk);
        assert(self.data@ =~= old(self).data@ + chunk@);
    }
}

/// The fields of one submission. Every text field starts out empty and the
/// image absent; a later part with the same name replaces an earlier one.
#[derive(Clone, Debug, PartialEq, Eq)]
pub struct FormSubmission {
    pub status: String,
    pub id_gen: String,
    pub time_gen: String,
    pub img_message: String,
    pub res_image: Option<Vec<u8>>,
}

/// What a `FormSubmission` holds.
pub struct FormView {
    pub status: Seq<char>,
    pub id_gen: Seq<char>,
    pub time_gen: Seq<char>,
    pub img_message: Seq<char>,
    pub res_image: Option<Seq<u8>>,
}

impl View for FormSubmission {
    type V = FormView;

    open spec fn view(&self) -> FormView {
        FormView {
            status: self.status@,
            id_gen: self.id_gen@,
            time_gen: self.time_gen@,
            img_message: self.img_message@,
            res_image: match self.res_image {
                Some(image) => Some(image@),
                None => None,
            },
        }
    }
}

impl FormView {
    /// The submission before any part has arrived.
    pub open spec fn empty() -> FormView {
        FormView {
            status: Seq::empty(),
            id_gen: Seq::empty(),
            time_gen: Seq::empty(),
            img_message: Seq::empty(),
            res_image: None,
        }
    }

    /// The submission after `part`, which must not be undecodable, has
    /// arrived: the part replaces the field it names and leaves the others.
    pub open spec fn absorb(self, part: PartView) -> FormView {
        match part.field() {
            Some(Field::Status) => FormView { status: decode_utf8(part.data), ..self },
            Some(Field::IdGen) => FormView { id_gen: decode_utf8(part.data), ..self },
            Some(Field::TimeGen) => FormView { time_gen: decode_utf8(part.data), ..self },
            Some(Field::ImgMessage) => FormView { img_message: decode_utf8(part.data), ..self },
            Some(Field::ResImage) => FormView { res_image: Some(part.data), ..self },
            None => self,
        }
    }
}

/// The bytes of the last part that fills `field`, if any part does.
pub open spec fn last_data(parts: Seq<PartView>, field: Field) -> Option<Seq<u8>>
    decreases parts.len(),
{
    if parts.len() == 0 {
        None
    } else if parts.last().field() == Some(field) {
        Some(parts.last().data)
    } else {
        last_data(parts.drop_last(), field)
    }
}

/// The text of a field given the bytes that filled it: empty when none did.
pub open spec fn text_of(data: Option<Seq<u8>>) -> Seq<char> {
    match data {
        Some(bytes) => decode_utf8(bytes),
        None => Seq::empty(),
    }
}

/// The submission that the parts of a body add up to. Each field holds
/// what the last part of its name brought: the decoded text for a text
/// field, the bytes for the image. A text field that no part named is
/// empty, and an image that no part named is absent.
pub open spec fn submitted(parts: Seq<PartView>) -> FormView {
    FormView {
        status: text_of(last_data(parts, Field::Status)),
        id_gen: text_of(last_data(parts, Field::IdGen)),
        time_gen: text_of(last_data(parts, Field::TimeGen)),
        img_message: text_of(last_data(parts, Field::ImgMessage)),
        res_image: last_data(parts, Field::ResImage),
    }
}

/// The field of the first part, in order, that is undecodable, if one is.
pub open spec fn first_undecodable(parts: Seq<PartView>) -> Option<Field>
    decreases parts.len(),
{
    if parts.len() == 0 {
        None
    } else {
        match first_undecodable(parts.drop_last()) {
            Some(field) => Some(field),
            None => if parts.last().undecodable() {
                parts.last().field()
            } else {
                None
            },
        }
    }
}

impl FormSubmission {
    /// The submission before any part has arrived.
    pub fn new() -> (form: FormSubmission)
        ensures
            form@ == FormView::empty(),
    {
        FormSubmission {
            status: String::new(),
            id_gen: String::new(),
            time_gen: String::new(),
            img_message: String::new(),
            res_image: None,
        }
    }

    /// Takes one part in. A part that names none of the fields is dropped.
    /// A text part that is not UTF-8 is refused with its field, and the
    /// submission stays as it was.
    pub fn accept_part(&mut self, part: Part) -> (taken: Result<(), Field>)
        ensures
            match taken {
                Ok(()) => !part@.undecodable() && final(self)@ == old(self)@.absorb(part@),
                Err(field) => part@.undecodable() && part@.field() == Some(field) && final(self)@
                    == old(self)@,
            },
    {
        let field = match &part.name {
            Some(name) => recognize(name.as_str()),
            None => None,
        };
        match field {
            None => Ok(()),
            Some(Field::ResImage) => {
                self.res_image = Some(part.data);
                Ok(())
            },
            Some(field) => match String::from_utf8(part.data) {
                Err(_) => Err(field),
                Ok(text) => {
                    match field {
                        Field::Status => {
                            self.status = text;
                        },
                        Field::IdGen => {
                            self.id_gen = text;
                        },
                        Field::TimeGen => {
                            self.time_gen = text;
                        },
                        _ => {
                            self.img_message = text;
                        },
                    }
                    Ok(())
                },
            },
        }
    }
}

/// Why a submission did not end in a saved image.
#[derive(Clone, Debug, PartialEq, Eq)]
pub enum Failure {
    /// The submission was read in full and does not call for a save. The
    /// message is the submission's own, or `MISSING_IMAGE`.
    Validation(String),
    /// The request could not be carried through: a text field did not
    /// decode. The message is `undecodable_message` of that field.
    Fatal(String),
}

/// What a `Failure` holds.
pub enum FailureView {
    Validation(Seq<char>),
    Fatal(Seq<char>),
}

impl FailureView {
    /// The text that goes to the error log.
    pub open spec fn message(self) -> Seq<char> {
        match self {
            FailureView::Validation(message) => message,
            FailureView::Fatal(message) => message,
        }
    }
}

impl View for Failure {
    type V = FailureView;

    open spec fn view(&self) -> FailureView {
        match self {
            Failure::Validation(message) => FailureView::Validation(message@),
            Failure::Fatal(message) => FailureView::Fatal(message@),
        }
    }
}

impl Failure {
    /// The text that goes to the error log.
    pub fn message(&self) -> (message: &str)
        ensures
            message@ == self@.message(),
    {
        match self {
            Failure::Validation(message) => message.as_str(),
            Failure::Fatal(message) => message.as_str(),
        }
    }
}

/// The message for a text field whose bytes are not UTF-8.
pub open spec fn undecodable_message(field: Field) -> Seq<char> {
    field.spec_name() + " is not valid UTF-8"@
}

/// An order to replace the file at `IMAGE_PATH` by `image`, with the
/// identifiers that the success line reports.
#[derive(Clone, Debug, PartialEq, Eq)]
pub struct SaveOrder {
    pub image: Vec<u8>,
    pub id_gen: String,
    pub time_gen: String,
}

/// What a `SaveOrder` holds.
pub struct OrderView {
    pub image: Seq<u8>,
    pub id_gen: Seq<char>,
    pub time_gen: Seq<char>,
}

impl OrderView {
    /// The line that announces a saved image on the process output.
    pub open spec fn success_line(self) -> Seq<char> {
        "processFormData: ID: "@ + self.id_gen + ", Time: "@ + self.time_gen
    }
}

impl View for SaveOrder {
    type V = OrderView;

    open spec fn view(&self) -> OrderView {
        OrderView { image: self.image@, id_gen: self.id_gen@, time_gen: self.time_gen@ }
    }
}

impl SaveOrder {
    /// The line to print once the image has been written.
    pub fn success_line(&self) -> (line: String)
        ensures
            line@ == self@.success_line(),
    {
        let mut line = String::from_str("processFormData: ID: ");
        line.append(self.id_gen.as_str());
        line.append(", Time: ");
        line.append(self.time_gen.as_str());
        line
    }
}

impl FormView {
    /// What a complete submission calls for. Anything but the exact status
    /// `200` fails with the submission's message, empty or not; status `200`
    /// without an image fails with `MISSING_IMAGE`; otherwise the image is
    /// to be saved.
    pub open spec fn verdict(self) -> Result<OrderView, FailureView> {
        if self.status != "200"@ {
            Err(FailureView::Validation(self.img_message))
        } else {
            match self.res_image {
                None => Err(FailureView::Validation(MISSING_IMAGE@)),
                Some(image) => Ok(
                    OrderView { image, id_gen: self.id_gen, time_gen: self.time_gen },
                ),
            }
        }
    }
}

/// What the parts of a body call for: a fatal failure for the first text
/// part that does not decode, and else the verdict on the submission that
/// the parts add up to.
pub open spec fn processed(parts: Seq<PartView>) -> Result<OrderView, FailureView> {
    match first_undecodable(parts) {
        Some(field) => Err(FailureView::Fatal(undecodable_message(field))),
        None => submitted(parts).verdict(),
    }
}

/// The view of a processing result.
pub open spec fn outcome_view(outcome: Result<SaveOrder, Failure>) -> Result<
    OrderView,
    FailureView,
> {
    match outcome {
        Ok(order) => Ok(order@),
        Err(failure) => Err(failure@),
    }
}

impl FormSubmission {
    /// Judges a complete submission.
    pub fn validate(self) -> (outcome: Result<SaveOrder, Failure>)
        ensures
            outcome_view(outcome) == self@.verdict(),
    {
        if !text_eq(self.status.as_str(), "200") {
            return Err(Failure::Validation(self.img_message));
        }
        match self.res_image {
            None => Err(Failure::Validation(String::from_str(MISSING_IMAGE))),
            Some(image) => Ok(SaveOrder { image, id_gen: self.id_gen, time_gen: self.time_gen }),
        }
    }
}

/// Collects the parts of a body into a submission and judges it.
///
/// The result is `Ok` exactly when every text part decodes, the status is
/// `200` and an image is present; the order then carries the bytes of the
/// last `res_image` part. Text that is not UTF-8 ends the request with a
/// fatal failure instead of aborting it.
pub fn process_form_data(parts: Vec<Part>) -> (outcome: Result<SaveOrder, Failure>)
    ensures
        outcome_view(outcome) == processed(part_views(parts@)),
{
    let ghost all = part_views(parts@);
    let mut form = FormSubmission::new();
    for part in it: parts
        invariant
            all == part_views(it.seq()),
            first_undecodable(all.take(it.index() as int)) is None,
            form@ == submitted(all.take(it.index() as int)),
    {
        proof {
            let n = it.index() as int;
            assert(all.take(n + 1).drop_last() =~= all.take(n));
            assert(all.take(n + 1).last() == part@);
            lemma_submitted_step(all.take(n + 1));
        }
        match form.accept_part(part) {
            Ok(()) => {},
            Err(field) => {
                proof {
                    lemma_first_undecodable_stands(all, it.index() as int + 1);
                }
                let mut message = String::from_str(field.name());
                message.append(" is not valid UTF-8");
                return Err(Failure::Fatal(message));
            },
        }
    }
    assert(all.take(all.len() as int) =~= all);
    form.validate()
}

/// Taking one more part in amounts to absorbing it into what the parts
/// before it added up to.
pub proof fn lemma_submitted_step(parts: Seq<PartView>)
    requires
        parts.len() > 0,
    ensures
        submitted(parts) == submitted(parts.drop_last()).absorb(parts.last()),
{
}

/// Once a part that does not decode has been met, parts that follow it do
/// not change which field is reported.
pub proof fn lemma_first_undecodable_stands(parts: Seq<PartView>, n: int)
    requires
        0 <= n <= parts.len(),
        first_undecodable(parts.take(n)) is Some,
    ensures
        first_undecodable(parts) == first_undecodable(parts.take(n)),
    decreases parts.len() - n,
{
    if n < parts.len() {
        assert(parts.take(n + 1).drop_last() =~= parts.take(n));
        lemma_first_undecodable_stands(parts, n + 1);
    } else {
        assert(parts.take(n) =~= parts);
    }
}

/// No part is reported exactly when every part decodes.
pub proof fn lemma_none_undecodable(parts: Seq<PartView>)
    ensures
        first_undecodable(parts) is None <==> forall|i: int|
            0 <= i < parts.len() ==> !(#[trigger] parts[i]).undecodable(),
    decreases parts.len(),
{
    if parts.len() > 0 {
        let front = parts.drop_last();
        lemma_none_undecodable(front);
        if first_undecodable(parts) is None {
            assert forall|i: int| 0 <= i < parts.len() implies !(#[trigger] parts[i]).undecodable() by {
                if i < front.len() {
                    assert(front[i] == parts[i]);
                }
            }
        } else if first_undecodable(front) is None {
            assert(parts[parts.len() - 1].undecodable());
        } else {
            let i = choose|i: int| 0 <= i < front.len() && (#[trigger] front[i]).undecodable();
            assert(parts[i] == front[i]);
        }
    }
}

/// The part that is reported is the first that does not decode: some part
/// fills the reported field with bytes that are not UTF-8, and every part
/// before it decodes.
pub proof fn lemma_first_undecodable_is_first(parts: Seq<PartView>)
    requires
        first_undecodable(parts) is Some,
    ensures
        exists|i: int|
            0 <= i < parts.len() && (#[trigger] parts[i]).undecodable() && parts[i].field()
                == first_undecodable(parts) && forall|j: int|
                0 <= j < i ==> !(#[trigger] parts[j]).undecodable(),
    decreases parts.len(),
{
    let front = parts.drop_last();
    if first_undecodable(front) is Some {
        lemma_first_undecodable_is_first(front);
        let i = choose|i: int|
            0 <= i < front.len() && (#[trigger] front[i]).undecodable() && front[i].field()
                == first_undecodable(front) && forall|j: int|
                0 <= j < i ==> !(#[trigger] front[j]).undecodable();
        assert(parts[i] == front[i]);
        assert forall|j: int| 0 <= j < i implies !(#[trigger] parts[j]).undecodable() by {
            assert(parts[j] == front[j]);
        }
    } else {
        lemma_none_undecodable(front);
        let i = parts.len() - 1;
        assert(parts[i].undecodable());
        assert forall|j: int| 0 <= j < i implies !(#[trigger] parts[j]).undecodable() by {
            assert(parts[j] == front[j]);
        }
    }
}

} // verus!
