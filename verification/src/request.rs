//! What an icon can be asked for: a file, classified by its extension, or an
//! application identity.

use vstd::prelude::*;

verus! {

/// How many aliases (shortcuts that lead to shortcuts) a chain may hold.
pub const MAX_ALIAS_DEPTH: u32 = 16;

/// The retrieval strategy that a file's extension selects.
#[derive(Clone, Copy, Debug, PartialEq, Eq, Structural)]
pub enum SourceKind {
    /// No extension: there is no icon to record.
    NoExtension,
    /// A `.url` file: all of them share one placeholder.
    Url,
    /// An `.exe` file: its own icon, kept by path.
    Executable,
    /// A `.lnk` file: its own icon, kept by path, or else its target's.
    Shortcut,
    /// Any other file: the icon of its extension.
    Generic,
}

/// The identity of an application.
#[derive(Debug)]
pub enum AppUserModelId {
    /// A packaged application, by its stable identity.
    Appx(String),
    /// An identity found in a shortcut's property store.
    PropertyStore(String),
}

impl AppUserModelId {
    /// The text under which the identity is kept in the cache.
    pub open spec fn key(&self) -> Seq<char> {
        match self {
            AppUserModelId::Appx(id) => id@,
            AppUserModelId::PropertyStore(id) => id@,
        }
    }

    pub fn as_str(&self) -> (id: &str)
        ensures
            id@ == self.key(),
    {
        match self {
            AppUserModelId::Appx(id) => id.as_str(),
            AppUserModelId::PropertyStore(id) => id.as_str(),
        }
    }
}

/// What a [`FileRequest`] holds, as plain text.
pub struct RequestView {
    pub key: Seq<char>,
    pub extension: Option<Seq<char>>,
    pub depth: int,
}

/// A file whose icon is asked for.
#[derive(Debug)]
pub struct FileRequest {
    /// The absolute path.
    pub key: String,
    /// The extension in lower case, if the path has one.
    pub extension: Option<String>,
    /// How many aliases led to this file.
    pub depth: u32,
}

impl View for FileRequest {
    type V = RequestView;

    open spec fn view(&self) -> RequestView {
        RequestView {
            key: self.key@,
            extension: match self.extension {
                Some(e) => Some(e@),
                None => None,
            },
            depth: self.depth as int,
        }
    }
}

impl Clone for FileRequest {
    fn clone(&self) -> (copy: Self)
        ensures
            copy@ == self@,
    {
        let extension: Option<String> = match &self.extension {
            Some(e) => Some(e.clone()),
            None => None,
        };
        FileRequest { key: self.key.clone(), extension, depth: self.depth }
    }
}

/// The lower-case form of a text, as `str::to_lowercase` computes it.
pub uninterp spec fn lowercase(text: Seq<char>) -> Seq<char>;

/// `str::to_lowercase`: the result is the lower-case form of the argument, a
/// function of the argument alone.
#[verifier::external_body]
fn to_lowercase(text: &str) -> (lowered: String)
    ensures
        lowered@ == lowercase(text@),
{
    text.to_lowercase()
}

fn same_text(a: &str, b: &str) -> (same: bool)
    ensures
        same == (a@ == b@),
{
    a.to_owned() == b.to_owned()
}

/// The strategy for a file with the given lower-case extension.
pub open spec fn kind_of(extension: Option<Seq<char>>) -> SourceKind {
    match extension {
        None => SourceKind::NoExtension,
        Some(e) => if e == "exe"@ {
            SourceKind::Executable
        } else if e == "lnk"@ {
            SourceKind::Shortcut
        } else if e == "url"@ {
            SourceKind::Url
        } else {
            SourceKind::Generic
        },
    }
}

/// An extension in lower case, if there is one.
pub open spec fn lowered_extension(extension: Option<&str>) -> Option<Seq<char>> {
    match extension {
        Some(e) => Some(lowercase(e@)),
        None => None,
    }
}

/// The depth one alias further down; it stays at the largest number.
pub open spec fn next_depth(depth: u32) -> int {
    if depth < u32::MAX {
        depth + 1
    } else {
        depth as int
    }
}

impl FileRequest {
    /// The request for the file at `path`, whose extension, in any case, is
    /// `extension`.
    pub fn new(path: &str, extension: Option<&str>) -> (request: FileRequest)
        ensures
            request@.key == path@,
            request@.depth == 0,
            request@.extension == lowered_extension(extension),
    {
        let lowered: Option<String> = match extension {
            Some(e) => Some(to_lowercase(e)),
            None => None,
        };
        FileRequest { key: path.to_owned(), extension: lowered, depth: 0 }
    }

    /// The request for the target of this shortcut, one alias further down.
    pub fn target(&self, path: &str, extension: Option<&str>) -> (request: FileRequest)
        ensures
            request@.key == path@,
            request@.depth == next_depth(self.depth),
            request@.extension == lowered_extension(extension),
    {
        let mut request = FileRequest::new(path, extension);
        request.depth = if self.depth < u32::MAX {
            self.depth + 1
        } else {
            self.depth
        };
        request
    }

    /// The strategy that the extension selects.
    pub fn kind(&self) -> (kind: SourceKind)
        ensures
            kind == kind_of(self@.extension),
    {
        match &self.extension {
            None => SourceKind::NoExtension,
            Some(e) => {
                if same_text(e.as_str(), "exe") {
                    SourceKind::Executable
                } else if same_text(e.as_str(), "lnk") {
                    SourceKind::Shortcut
                } else if same_text(e.as_str(), "url") {
                    SourceKind::Url
                } else {
                    SourceKind::Generic
                }
            },
        }
    }
}

} // verus!
