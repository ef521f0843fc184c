//! The embedded web view: which page it shows, and the preview it asks for.
use vstd::prelude::*;

verus! {

broadcast use vstd::string::group_string_axioms;

/// A web page shown as a wallpaper.
pub struct ServoWebEngine {
    url: String,
}

/// A request to render the page `source` continuously into the image file
/// `target`; `source` is resolved against the installed assets first.
pub struct PreviewRequest {
    pub source: String,
    pub target: String,
}

impl View for ServoWebEngine {
    type V = Seq<char>;

    closed spec fn view(&self) -> Seq<char> {
        self.url@
    }
}

impl ServoWebEngine {
    pub fn new(url: &str) -> (r: Self)
        ensures
            r@ == url@,
    {
        ServoWebEngine { url: url.to_string() }
    }

    /// The page shown.
    pub fn get_url(&self) -> (r: &str)
        ensures
            r@ == self@,
    {
        self.url.as_str()
    }

    /// The preview of the page into `target_path`.
    pub fn render_preview_file(&self, target_path: &str) -> (r: PreviewRequest)
        ensures
            r.source@ == self@,
            r.target@ == target_path@,
    {
        PreviewRequest { source: self.url.clone(), target: target_path.to_string() }
    }
}

} // verus!
