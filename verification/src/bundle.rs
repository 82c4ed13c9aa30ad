//! The data that travels from the watcher to the render side.

use vstd::prelude::*;
use vstd::utf8::encode_utf8;

verus! {

/// The pipeline stage that a tracked source feeds.
#[derive(Clone, Copy, Debug, PartialEq, Eq, Structural)]
pub enum ShaderRole {
    Vertex,
    Fragment,
    Geometry,
}

/// One file on the watch list: where it lives and which stage it feeds.
#[derive(Clone, Debug, PartialEq, Eq)]
pub struct TrackedSource {
    pub id: String,
    pub role: ShaderRole,
}

/// A tracked source as contracts see it.
pub struct SourceView {
    pub id: Seq<char>,
    pub role: ShaderRole,
}

impl View for TrackedSource {
    type V = SourceView;

    open spec fn view(&self) -> SourceView {
        SourceView { id: self.id@, role: self.role }
    }
}

impl TrackedSource {
    pub fn new(id: String, role: ShaderRole) -> (source: TrackedSource)
        ensures
            source@ == (SourceView { id: id@, role }),
    {
        TrackedSource { id, role }
    }
}

/// What one look at a tracked file brought back.
#[derive(Clone, Debug, PartialEq, Eq)]
pub enum SourceProbe {
    /// The file could not be opened.
    Unavailable,
    /// The file was opened. `modified` is its modification time in whole
    /// seconds; `content` is its text, or `None` where reading it failed.
    Opened { modified: u64, content: Option<String> },
}

/// A probe as contracts see it.
pub enum ProbeView {
    Unavailable,
    Opened { modified: u64, content: Option<Seq<char>> },
}

impl View for SourceProbe {
    type V = ProbeView;

    open spec fn view(&self) -> ProbeView {
        match self {
            SourceProbe::Unavailable => ProbeView::Unavailable,
            SourceProbe::Opened { modified, content } => ProbeView::Opened {
                modified: *modified,
                content: content.deep_view(),
            },
        }
    }
}

impl ProbeView {
    /// The text that the probe carries, if it carries any.
    pub open spec fn text(self) -> Option<Seq<char>> {
        match self {
            ProbeView::Unavailable => None,
            ProbeView::Opened { content, .. } => content,
        }
    }
}

/// The shader text captured in one watcher cycle, at most one text per role.
#[derive(Clone, Debug, PartialEq, Eq)]
pub struct ShaderBundle {
    pub vertex: Option<String>,
    pub fragment: Option<String>,
    pub geometry: Option<String>,
}

/// A bundle as contracts see it.
pub struct BundleView {
    pub vertex: Option<Seq<char>>,
    pub fragment: Option<Seq<char>>,
    pub geometry: Option<Seq<char>>,
}

impl BundleView {
    /// The bundle that holds no text at all.
    pub open spec fn empty() -> BundleView {
        BundleView { vertex: None, fragment: None, geometry: None }
    }

    /// The text stored under `role`.
    pub open spec fn text(self, role: ShaderRole) -> Option<Seq<char>> {
        match role {
            ShaderRole::Vertex => self.vertex,
            ShaderRole::Fragment => self.fragment,
            ShaderRole::Geometry => self.geometry,
        }
    }

    /// This bundle with `text` stored under `role`, replacing what was there.
    pub open spec fn with_text(self, role: ShaderRole, text: Seq<char>) -> BundleView {
        match role {
            ShaderRole::Vertex => BundleView { vertex: Some(text), ..self },
            ShaderRole::Fragment => BundleView { fragment: Some(text), ..self },
            ShaderRole::Geometry => BundleView { geometry: Some(text), ..self },
        }
    }

    /// A bundle can be compiled only when it holds vertex and fragment text.
    pub open spec fn is_complete(self) -> bool {
        self.vertex is Some && self.fragment is Some
    }
}

impl View for ShaderBundle {
    type V = BundleView;

    open spec fn view(&self) -> BundleView {
        BundleView {
            vertex: self.vertex.deep_view(),
            fragment: self.fragment.deep_view(),
            geometry: self.geometry.deep_view(),
        }
    }
}

/// What an optional bundle is to contracts.
pub open spec fn optional_view(bundle: Option<ShaderBundle>) -> Option<BundleView> {
    match bundle {
        Some(bundle) => Some(bundle@),
        None => None,
    }
}

impl ShaderBundle {
    /// A bundle without any text.
    pub fn new() -> (bundle: ShaderBundle)
        ensures
            bundle@ == BundleView::empty(),
    {
        ShaderBundle { vertex: None, fragment: None, geometry: None }
    }

    /// Stores `text` under `role`. A text stored there before is replaced.
    pub fn set(&mut self, role: ShaderRole, text: String)
        ensures
            final(self)@ == old(self)@.with_text(role, text@),
    {
        match role {
            ShaderRole::Vertex => {
                self.vertex = Some(text);
            },
            ShaderRole::Fragment => {
                self.fragment = Some(text);
            },
            ShaderRole::Geometry => {
                self.geometry = Some(text);
            },
        }
    }

    /// The text stored under `role`.
    pub fn text(&self, role: ShaderRole) -> (text: Option<&String>)
        ensures
            text.deep_view() == self@.text(role),
    {
        match role {
            ShaderRole::Vertex => self.vertex.as_ref(),
            ShaderRole::Fragment => self.fragment.as_ref(),
            ShaderRole::Geometry => self.geometry.as_ref(),
        }
    }

    /// Whether both the vertex and the fragment text are present.
    pub fn is_complete(&self) -> (complete: bool)
        ensures
            complete == self@.is_complete(),
    {
        self.vertex.is_some() && self.fragment.is_some()
    }
}

/// A bundle that is fit to be compiled: vertex and fragment text, and
/// geometry text where there is any.
#[derive(Clone, Debug, PartialEq, Eq)]
pub struct CompileRequest {
    pub vertex: String,
    pub fragment: String,
    pub geometry: Option<String>,
}

/// A compile request as contracts see it.
pub struct RequestView {
    pub vertex: Seq<char>,
    pub fragment: Seq<char>,
    pub geometry: Option<Seq<char>>,
}

impl View for CompileRequest {
    type V = RequestView;

    open spec fn view(&self) -> RequestView {
        RequestView {
            vertex: self.vertex@,
            fragment: self.fragment@,
            geometry: self.geometry.deep_view(),
        }
    }
}

/// Whether a text, written out as UTF-8, holds a zero byte. A graphics driver
/// takes its source as a C string, which ends at the first zero byte, so such
/// a text cannot be handed to it.
pub open spec fn holds_nul(text: Seq<char>) -> bool {
    encode_utf8(text).contains(0u8)
}

/// Looks for a zero byte in a text.
pub fn text_holds_nul(text: &str) -> (found: bool)
    ensures
        found == holds_nul(text@),
{
    let bytes = text.as_bytes();
    let mut i: usize = 0;
    while i < bytes.len()
        invariant
            i <= bytes.len(),
            bytes@ == encode_utf8(text@),
            forall|k: int| 0 <= k < i ==> bytes@[k] != 0u8,
        decreases bytes.len() - i,
    {
        if bytes[i] == 0 {
            return true;
        }
        i += 1;
    }
    false
}

impl RequestView {
    /// Whether any of the request's texts holds a zero byte.
    pub open spec fn holds_nul(self) -> bool {
        ||| holds_nul(self.vertex)
        ||| holds_nul(self.fragment)
        ||| (self.geometry is Some && holds_nul(self.geometry->0))
    }
}

impl CompileRequest {
    /// Whether any of the request's texts holds a zero byte. A compiler must
    /// not be asked for such a request.
    pub fn holds_nul(&self) -> (found: bool)
        ensures
            found == self@.holds_nul(),
    {
        if text_holds_nul(self.vertex.as_str()) || text_holds_nul(self.fragment.as_str()) {
            return true;
        }
        match &self.geometry {
            Some(text) => text_holds_nul(text.as_str()),
            None => false,
        }
    }
}

/// The request that a bundle gives rise to: none unless it holds both vertex
/// and fragment text.
pub open spec fn request_for(bundle: BundleView) -> Option<RequestView> {
    if bundle.is_complete() {
        Some(
            RequestView {
                vertex: bundle.vertex->0,
                fragment: bundle.fragment->0,
                geometry: bundle.geometry,
            },
        )
    } else {
        None
    }
}

/// What an optional request is to contracts.
pub open spec fn request_view(request: Option<CompileRequest>) -> Option<RequestView> {
    match request {
        Some(request) => Some(request@),
        None => None,
    }
}

impl ShaderBundle {
    /// Turns the bundle into a compile request. A bundle that lacks vertex or
    /// fragment text gives none.
    pub fn into_request(self) -> (request: Option<CompileRequest>)
        ensures
            request_view(request) == request_for(self@),
    {
        match (self.vertex, self.fragment) {
            (Some(vertex), Some(fragment)) => Some(
                CompileRequest { vertex, fragment, geometry: self.geometry },
            ),
            _ => None,
        }
    }
}

/// Something that can name the text of the two stages every program needs.
pub trait ShaderSource {
    /// The vertex stage's text as contracts see it.
    spec fn vertex_text(&self) -> Seq<char>;

    /// The fragment stage's text as contracts see it.
    spec fn fragment_text(&self) -> Seq<char>;

    /// The vertex stage's text.
    fn vertex_shader(&self) -> (text: String)
        ensures
            text@ == self.vertex_text(),
    ;

    /// The fragment stage's text.
    fn fragment_shader(&self) -> (text: String)
        ensures
            text@ == self.fragment_text(),
    ;
}

impl ShaderSource for CompileRequest {
    open spec fn vertex_text(&self) -> Seq<char> {
        self.vertex@
    }

    open spec fn fragment_text(&self) -> Seq<char> {
        self.fragment@
    }

    fn vertex_shader(&self) -> (text: String) {
        self.vertex.clone()
    }

    fn fragment_shader(&self) -> (text: String) {
        self.fragment.clone()
    }
}

} // verus!
