//! The description of one HTTP request to the server: its method, its path
//! (with the query string) and its body.

use vstd::prelude::*;
use crate::form::Form;

verus! {

/// HTTP method of a request.
#[derive(PartialEq, Eq, Structural, Clone, Copy, Debug)]
pub enum Method {
    Get,
    Post,
    Put,
    Patch,
    Delete,
}

/// One part of a multipart body.
#[derive(Debug)]
pub enum Part {
    /// A text field.
    Text { name: String, value: String },
    /// The contents of the file at `path`, sent under `file_name`.
    File { name: String, path: String, file_name: String },
}

/// A part of a multipart body, seen as text.
pub enum PartView {
    Text { name: Seq<char>, value: Seq<char> },
    File { name: Seq<char>, path: Seq<char>, file_name: Seq<char> },
}

impl View for Part {
    type V = PartView;

    open spec fn view(&self) -> PartView {
        match self {
            Part::Text { name, value } => PartView::Text { name: name@, value: value@ },
            Part::File { name, path, file_name } => PartView::File {
                name: name@,
                path: path@,
                file_name: file_name@,
            },
        }
    }
}

/// The body of a request.
#[derive(Debug)]
pub enum Body {
    /// No body.
    Empty,
    /// Form fields.
    Form(Form),
    /// A multipart body, its parts in order.
    Multipart(Vec<Part>),
}

/// A body, seen as text.
pub enum BodyView {
    Empty,
    Form(Map<Seq<char>, Seq<char>>),
    Multipart(Seq<PartView>),
}

impl View for Body {
    type V = BodyView;

    open spec fn view(&self) -> BodyView {
        match self {
            Body::Empty => BodyView::Empty,
            Body::Form(f) => BodyView::Form(f@),
            Body::Multipart(parts) => BodyView::Multipart(parts@.map_values(|p: Part| p@)),
        }
    }
}

/// A request to the server: method, path with query string, body.
#[derive(Debug)]
pub struct Request {
    pub method: Method,
    pub path: String,
    pub body: Body,
}

/// A request, seen as text.
pub struct RequestView {
    pub method: Method,
    pub path: Seq<char>,
    pub body: BodyView,
}

impl View for Request {
    type V = RequestView;

    open spec fn view(&self) -> RequestView {
        RequestView { method: self.method, path: self.path@, body: self.body@ }
    }
}

/// A GET of `path`, without body.
pub open spec fn get_view(path: Seq<char>) -> RequestView {
    RequestView { method: Method::Get, path, body: BodyView::Empty }
}

/// A request of `method` to `path` with the form fields `fields`.
pub open spec fn form_view(method: Method, path: Seq<char>, fields: Map<Seq<char>, Seq<char>>) -> RequestView {
    RequestView { method, path, body: BodyView::Form(fields) }
}

/// A request of `method` to `path` with the multipart body `parts`.
pub open spec fn multipart_view(method: Method, path: Seq<char>, parts: Seq<PartView>) -> RequestView {
    RequestView { method, path, body: BodyView::Multipart(parts) }
}

/// The empty set of form fields.
pub open spec fn no_fields() -> Map<Seq<char>, Seq<char>> {
    Map::empty()
}

/// A GET of `path`.
pub fn get(path: String) -> (r: Request)
    ensures
        r@ == get_view(path@),
{
    Request { method: Method::Get, path, body: Body::Empty }
}

/// A request of `method` to `path` carrying `form`.
pub fn with_form(method: Method, path: String, form: Form) -> (r: Request)
    ensures
        r@ == form_view(method, path@, form@),
{
    Request { method, path, body: Body::Form(form) }
}

/// A request of `method` to `path` carrying an empty form.
pub fn with_empty_form(method: Method, path: String) -> (r: Request)
    ensures
        r@ == form_view(method, path@, no_fields()),
{
    with_form(method, path, Form::new())
}

/// A request of `method` to `path` with a multipart body.
pub fn with_parts(method: Method, path: String, parts: Vec<Part>) -> (r: Request)
    ensures
        r@ == multipart_view(method, path@, parts@.map_values(|p: Part| p@)),
{
    Request { method, path, body: Body::Multipart(parts) }
}

} // verus!
