//! The loader chain: ordered strategies that turn a resolved module name
//! into source ready for the interpreter.
//!
//! The chain holds the native-module entry, the HTTP entry and the
//! memory-mapped file entry, in that order; the first entry whose match
//! predicate accepts the name wins. The blocking work of an entry — the
//! network fetch, the file mapping, the transformation — is carried out
//! by the host around the chain; the chain's own functions decide which
//! entry claims a name and what its outcome means, from the plain values
//! those operations returned.

use vstd::prelude::*;

use crate::mime_sniff::{mime_parts_of, sniff_content_type, sniffed_extension};
use crate::paths::{extension_of, path_extension};
use crate::strutil::{str_eq, utf8_to_string};
use crate::transpile::{inferred_syntax, EasySwcTranspilerError, SyntaxTag};
use crate::urls::is_http_url;
use vstd::utf8::{decode_utf8, valid_utf8};

verus! {

/// Why loading failed; terminal for the import that asked.
#[derive(Clone, Debug, PartialEq, Eq)]
pub enum LoadError {
    /// No loader entry's match predicate accepted the name.
    NotFound,
    /// Transport failure fetching a remote module; the payload carries the
    /// transport's message.
    Network(String),
    /// The MIME sniff rejected the response: the content type was missing,
    /// unparsable, or named no recognized script type.
    UnrecognizedContent,
    /// The transformer reported an error; wraps the transformer's detail.
    TransformFailed(EasySwcTranspilerError),
    /// A local file could not be mapped or decoded, or its extension is
    /// not registered.
    Unreadable,
}

/// Module source, ready for optional transformation and then for the
/// interpreter: its name, its raw text or bytes, and the inferred syntax.
#[derive(Clone, Debug, PartialEq, Eq)]
pub struct Source {
    /// The canonical module name the source will be declared under.
    pub name: String,
    /// The text or raw bytes of the module.
    pub body: SourceBody,
    /// The syntax the body is written in.
    pub syntax: SyntaxTag,
}

/// The body of a module source.
#[derive(Clone, Debug, PartialEq, Eq)]
pub enum SourceBody {
    /// Decoded text.
    Text(String),
    /// Raw bytes, handed through untouched when no transformer runs.
    Bytes(Vec<u8>),
}

/// A transformation the host still has to run: the transformer is an
/// external collaborator, `(source, syntax-hint, module-flag) -> source`.
#[derive(Clone, Debug, PartialEq, Eq)]
pub struct TransformRequest {
    /// The canonical module name.
    pub name: String,
    /// The text to transform.
    pub source: String,
    /// The syntax hint to hand the transformer.
    pub syntax: SyntaxTag,
    /// Whether the text is to be parsed as a module.
    pub is_module: bool,
}

/// What one loader entry concluded from the values the host handed it.
#[derive(Clone, Debug, PartialEq, Eq)]
pub enum LoadStep {
    /// The module source is ready.
    Done(Source),
    /// The host must run the transformer, then call `apply_transform`.
    NeedsTransform(TransformRequest),
    /// Loading failed; terminal.
    Failed(LoadError),
}

/// `r` failed with exactly the error `e`.
pub open spec fn step_fails(r: LoadStep, e: LoadError) -> bool {
    match r {
        LoadStep::Failed(x) => x == e,
        _ => false,
    }
}

/// `r` failed with a network error carrying the message `msg`.
pub open spec fn step_fails_network(r: LoadStep, msg: Seq<char>) -> bool {
    match r {
        LoadStep::Failed(x) => match x {
            LoadError::Network(m) => m@ == msg,
            _ => false,
        },
        _ => false,
    }
}

/// `r` asks the host to transform `source` under `name`, with the hint
/// `syntax`, as a module.
pub open spec fn step_needs_transform(
    r: LoadStep,
    name: Seq<char>,
    source: Seq<char>,
    syntax: SyntaxTag,
) -> bool {
    match r {
        LoadStep::NeedsTransform(t) => t.name@ == name && t.source@ == source && t.syntax == syntax
            && t.is_module,
        _ => false,
    }
}

/// `r` is finished text source under `name` with the hint `syntax`.
pub open spec fn step_done_text(
    r: LoadStep,
    name: Seq<char>,
    text: Seq<char>,
    syntax: SyntaxTag,
) -> bool {
    match r {
        LoadStep::Done(s) => s.name@ == name && match s.body {
            SourceBody::Text(t) => t@ == text,
            SourceBody::Bytes(_) => false,
        } && s.syntax == syntax,
        _ => false,
    }
}

/// `r` is finished raw-byte source under `name` with the hint `syntax`.
pub open spec fn step_done_bytes(
    r: LoadStep,
    name: Seq<char>,
    bytes: Seq<u8>,
    syntax: SyntaxTag,
) -> bool {
    match r {
        LoadStep::Done(s) => s.name@ == name && match s.body {
            SourceBody::Text(_) => false,
            SourceBody::Bytes(b) => b@ == bytes,
        } && s.syntax == syntax,
        _ => false,
    }
}

/// The syntax hint the HTTP entry infers from a sniffed extension: the
/// inferred syntax, or the plain base language when nothing fits.
pub open spec fn http_syntax_of(ext: Seq<char>, typescript: bool) -> SyntaxTag {
    match inferred_syntax(ext, typescript, false) {
        Some(s) => s,
        None => SyntaxTag::Es { jsx: false },
    }
}

/// The extension the HTTP entry works under: sniffed from the content
/// type when sniffing is on, the base `js` otherwise. `None` is the
/// sniff's rejection.
pub open spec fn http_extension_of(
    check_mime: bool,
    typescript: bool,
    content_type: Option<Seq<char>>,
) -> Option<Seq<char>> {
    if check_mime {
        match content_type {
            Some(h) => sniffed_extension(mime_parts_of(h), typescript),
            None => None,
        }
    } else {
        Some("js"@)
    }
}

/// What the HTTP fetch handed back: the declared content type, if any,
/// and the body as text, when it could be read as text.
pub struct HttpResponseParts {
    /// The value of the content-type header, when one was present.
    pub content_type: Option<String>,
    /// The response body as text; `None` when it could not be read.
    pub body: Option<String>,
}

/// The HTTP entry of the loader chain: applicable to absolute `http(s)`
/// names; fetches, sniffs, and optionally hands the text on to the
/// transformer.
pub struct HttpLoader {
    /// Inspect the declared content type before accepting a body.
    pub check_mime: bool,
    /// Accept the typed superset's subtype during sniffing.
    pub typescript: bool,
    /// Run the transformer over the fetched text.
    pub transpile: bool,
}

impl HttpLoader {
    /// An HTTP entry with content-type sniffing on, as engines wire it.
    pub fn new(typescript: bool, transpile: bool) -> (r: HttpLoader)
        ensures
            r.check_mime,
            r.typescript == typescript,
            r.transpile == transpile,
    {
        HttpLoader { check_mime: true, typescript, transpile }
    }

    /// Decide what a fetched response means. `transport` is the outcome of
    /// the GET, run by the host under the cancellation combinator: the
    /// response's parts, or the transport's error message.
    pub fn process_response(&self, name: &str, transport: Result<HttpResponseParts, String>) -> (r:
        LoadStep)
        ensures
            transport matches Err(m) ==> step_fails_network(r, m@),
            transport matches Ok(parts) ==> match http_extension_of(
                self.check_mime,
                self.typescript,
                view_opt_string(parts.content_type),
            ) {
                None => step_fails(r, LoadError::UnrecognizedContent),
                Some(ext) => match parts.body {
                    None => step_fails_network(r, "cannot load as program text"@),
                    Some(b) => if self.transpile {
                        step_needs_transform(r, name@, b@, http_syntax_of(ext, self.typescript))
                    } else {
                        step_done_text(r, name@, b@, http_syntax_of(ext, self.typescript))
                    },
                },
            },
    {
        let parts = match transport {
            Ok(p) => p,
            Err(m) => {
                return LoadStep::Failed(LoadError::Network(m));
            },
        };
        let ext: &str = if self.check_mime {
            let header = match &parts.content_type {
                Some(h) => h,
                None => {
                    return LoadStep::Failed(LoadError::UnrecognizedContent);
                },
            };
            match sniff_content_type(header.as_str(), self.typescript) {
                Some(e) => e,
                None => {
                    return LoadStep::Failed(LoadError::UnrecognizedContent);
                },
            }
        } else {
            "js"
        };
        let body = match parts.body {
            Some(b) => b,
            None => {
                return LoadStep::Failed(
                    LoadError::Network("cannot load as program text".to_owned()),
                );
            },
        };
        let syntax = match crate::transpile::infer_transpile_syntax_by_extension(
            ext,
            self.typescript,
            false,
        ) {
            Some(s) => s,
            None => SyntaxTag::base(),
        };
        if self.transpile {
            LoadStep::NeedsTransform(
                TransformRequest {
                    name: name.to_owned(),
                    source: body,
                    syntax,
                    is_module: true,
                },
            )
        } else {
            LoadStep::Done(
                Source { name: name.to_owned(), body: SourceBody::Text(body), syntax },
            )
        }
    }
}

/// The view of an optional owned string.
pub open spec fn view_opt_string(s: Option<String>) -> Option<Seq<char>> {
    match s {
        Some(x) => Some(x@),
        None => None,
    }
}

/// The memory-mapped file entry of the loader chain: applicable to names
/// whose extension is registered; maps the file, and either hands the
/// decoded text to the transformer or declares the raw bytes.
pub struct MmapScriptLoader {
    /// The registered script file extensions.
    pub extensions: Vec<String>,
    /// Run the transformer over the decoded text.
    pub transpile: bool,
    /// The typed superset is enabled for syntax inference.
    pub typescript: bool,
    /// The component syntax is enabled for syntax inference.
    pub react: bool,
}

/// The syntax hint the file entry infers from the file's extension: the
/// inferred syntax, or the plain base language when nothing fits.
pub open spec fn mmap_syntax_of(
    ext: Seq<char>,
    typescript: bool,
    react: bool,
) -> SyntaxTag {
    match inferred_syntax(ext, typescript, react) {
        Some(s) => s,
        None => SyntaxTag::Es { jsx: false },
    }
}

impl MmapScriptLoader {
    pub closed spec fn extensions_view(&self) -> Seq<Seq<char>> {
        self.extensions@.map_values(|e: String| e@)
    }

    /// A file entry with no registered extensions.
    pub fn new(transpile: bool, typescript: bool, react: bool) -> (r: MmapScriptLoader)
        ensures
            r.extensions_view() =~= Seq::<Seq<char>>::empty(),
            r.transpile == transpile,
            r.typescript == typescript,
            r.react == react,
    {
        MmapScriptLoader { extensions: Vec::new(), transpile, typescript, react }
    }

    /// Register one more script file extension.
    pub fn with_extension(self, extension: String) -> (r: MmapScriptLoader)
        ensures
            r.extensions_view() =~= self.extensions_view().push(extension@),
            r.transpile == self.transpile,
            r.typescript == self.typescript,
            r.react == self.react,
    {
        let mut extensions = self.extensions;
        extensions.push(extension);
        MmapScriptLoader { extensions, transpile: self.transpile, typescript: self.typescript, react: self.react }
    }

    /// Is some registered extension exactly `ext`?
    pub fn has_extension(&self, ext: &str) -> (r: bool)
        ensures
            r == self.extensions_view().contains(ext@),
    {
        let mut i: usize = 0;
        while i < self.extensions.len()
            invariant
                i <= self.extensions@.len(),
                self.extensions_view().len() == self.extensions@.len(),
                forall|j: int| 0 <= j < self.extensions@.len()
                    ==> self.extensions_view()[j] == self.extensions@[j]@,
                forall|j: int| 0 <= j < i ==> self.extensions_view()[j] != ext@,
            decreases self.extensions@.len() - i,
        {
            if str_eq(self.extensions[i].as_str(), ext) {
                assert(self.extensions_view()[i as int] == ext@);
                return true;
            }
            i += 1;
        }
        false
    }

    /// Decide what a mapped file means. `content` is what the host mapped,
    /// under the cancellation combinator; `None` when the file could not
    /// be opened.
    pub fn process_mapped(&self, path: &str, content: Option<Vec<u8>>) -> (r: LoadStep)
        ensures
            extension_of(path@) is None ==> step_fails(r, LoadError::Unreadable),
            extension_of(path@) matches Some(ext) ==> if !self.extensions_view().contains(ext) {
                step_fails(r, LoadError::Unreadable)
            } else {
                match content {
                    None => step_fails(r, LoadError::Unreadable),
                    Some(bytes) => if self.transpile {
                        if !valid_utf8(bytes@) {
                            step_fails(r, LoadError::Unreadable)
                        } else {
                            step_needs_transform(
                                r,
                                path@,
                                decode_utf8(bytes@),
                                mmap_syntax_of(ext, self.typescript, self.react),
                            )
                        }
                    } else {
                        step_done_bytes(
                            r,
                            path@,
                            bytes@,
                            mmap_syntax_of(ext, self.typescript, self.react),
                        )
                    },
                }
            },
    {
        let ext = match path_extension(path) {
            Some(e) => e,
            None => {
                return LoadStep::Failed(LoadError::Unreadable);
            },
        };
        if !self.has_extension(ext.as_str()) {
            return LoadStep::Failed(LoadError::Unreadable);
        }
        let bytes = match content {
            Some(b) => b,
            None => {
                return LoadStep::Failed(LoadError::Unreadable);
            },
        };
        let syntax = match crate::transpile::infer_transpile_syntax_by_extension(
            ext.as_str(),
            self.typescript,
            self.react,
        ) {
            Some(s) => s,
            None => SyntaxTag::base(),
        };
        if self.transpile {
            match utf8_to_string(&bytes) {
                Some(text) => LoadStep::NeedsTransform(
                    TransformRequest {
                        name: path.to_owned(),
                        source: text,
                        syntax,
                        is_module: true,
                    },
                ),
                None => LoadStep::Failed(LoadError::Unreadable),
            }
        } else {
            LoadStep::Done(
                Source { name: path.to_owned(), body: SourceBody::Bytes(bytes), syntax },
            )
        }
    }
}

/// Finish a load whose entry asked for a transformation: the host ran the
/// transformer and hands its outcome back. The transformed text is base
/// language.
pub fn apply_transform(req: TransformRequest, outcome: Result<String, EasySwcTranspilerError>) -> (r:
    Result<Source, LoadError>)
    ensures
        outcome matches Ok(text) ==> match r {
            Ok(s) => s.name@ == req.name@ && match s.body {
                SourceBody::Text(t) => t@ == text@,
                SourceBody::Bytes(_) => false,
            } && s.syntax == (SyntaxTag::Es { jsx: false }),
            Err(_) => false,
        },
        outcome matches Err(e) ==> match r {
            Ok(_) => false,
            Err(x) => x == LoadError::TransformFailed(e),
        },
{
    match outcome {
        Ok(text) => Ok(
            Source {
                name: req.name,
                body: SourceBody::Text(text),
                syntax: SyntaxTag::Es { jsx: false },
            },
        ),
        Err(e) => Err(LoadError::TransformFailed(e)),
    }
}

/// The native-module entry of the loader chain: applicable exactly when
/// the name is one of the compiled-in modules registered at construction;
/// the module's statically registered implementation is used directly, no
/// text source is produced.
pub struct NativeLoader {
    modules: Vec<String>,
}

impl NativeLoader {
    pub closed spec fn view(&self) -> Seq<Seq<char>> {
        self.modules@.map_values(|m: String| m@)
    }

    /// An empty registry.
    pub fn new() -> (r: NativeLoader)
        ensures
            r@ =~= Seq::<Seq<char>>::empty(),
    {
        NativeLoader { modules: Vec::new() }
    }

    /// Register one compiled-in module name.
    pub fn with_module(self, name: String) -> (r: NativeLoader)
        ensures
            r@ =~= self@.push(name@),
    {
        let mut modules = self.modules;
        modules.push(name);
        NativeLoader { modules }
    }

    /// Does the registry hold `name` exactly?
    pub fn recognizes(&self, name: &str) -> (r: bool)
        ensures
            r == self@.contains(name@),
    {
        let mut i: usize = 0;
        while i < self.modules.len()
            invariant
                i <= self.modules@.len(),
                self@.len() == self.modules@.len(),
                forall|j: int| 0 <= j < self@.len() ==> self@[j] == self.modules@[j]@,
                forall|j: int| 0 <= j < i ==> self@[j] != name@,
            decreases self.modules@.len() - i,
        {
            if str_eq(self.modules[i].as_str(), name) {
                assert(self@[i as int] == name@);
                return true;
            }
            i += 1;
        }
        false
    }
}

/// Which entry of the loader chain a plan chose.
#[derive(Clone, Copy, Debug, PartialEq, Eq, Structural)]
pub enum LoaderEntryKind {
    Native,
    Http,
    Mmap,
}

/// The native entry's match predicate.
pub open spec fn native_loader_applicable(registry: Seq<Seq<char>>, name: Seq<char>) -> bool {
    registry.contains(name)
}

/// The HTTP entry's match predicate: an absolute `http(s)` URL.
pub open spec fn http_loader_applicable(name: Seq<char>) -> bool {
    is_http_url(name)
}

/// The file entry's match predicate: a registered extension.
pub open spec fn mmap_loader_applicable(extensions: Seq<Seq<char>>, name: Seq<char>) -> bool {
    match extension_of(name) {
        Some(e) => extensions.contains(e),
        None => false,
    }
}

/// The entry that claims `name`: the first, in chain order, whose match
/// predicate accepts it.
pub open spec fn chosen_entry(
    native: Seq<Seq<char>>,
    extensions: Seq<Seq<char>>,
    name: Seq<char>,
) -> Option<LoaderEntryKind> {
    if native_loader_applicable(native, name) {
        Some(LoaderEntryKind::Native)
    } else if http_loader_applicable(name) {
        Some(LoaderEntryKind::Http)
    } else if mmap_loader_applicable(extensions, name) {
        Some(LoaderEntryKind::Mmap)
    } else {
        None
    }
}

/// When a name is recognized by more than one entry's predicate, the
/// earlier entry in the chain always wins; only a name no predicate
/// accepts is left unclaimed.
pub proof fn lemma_earlier_entry_wins(
    native: Seq<Seq<char>>,
    extensions: Seq<Seq<char>>,
    name: Seq<char>,
)
    ensures
        native_loader_applicable(native, name) ==> chosen_entry(native, extensions, name)
            == Some(LoaderEntryKind::Native),
        !native_loader_applicable(native, name) && http_loader_applicable(name) ==> chosen_entry(
            native,
            extensions,
            name,
        ) == Some(LoaderEntryKind::Http),
        !native_loader_applicable(native, name) && !http_loader_applicable(name)
            && mmap_loader_applicable(extensions, name) ==> chosen_entry(native, extensions, name)
            == Some(LoaderEntryKind::Mmap),
        chosen_entry(native, extensions, name) is None <==> (!native_loader_applicable(
            native,
            name,
        ) && !http_loader_applicable(name) && !mmap_loader_applicable(extensions, name)),
{
}

/// What the host is to do next for a name: use a compiled-in module,
/// fetch over HTTP, or map a local file. The payload is the name itself.
#[derive(Clone, Debug, PartialEq, Eq)]
pub enum LoadPlan {
    /// Use the compiled-in module registered under the name.
    Native(String),
    /// Fetch the name over HTTP, then call the HTTP entry's processor.
    FetchHttp(String),
    /// Map the file at the name, then call the file entry's processor.
    MapFile(String),
}

/// The spec-level kind of a plan.
pub open spec fn plan_kind(p: Option<LoadPlan>) -> Option<LoaderEntryKind> {
    match p {
        Some(LoadPlan::Native(_)) => Some(LoaderEntryKind::Native),
        Some(LoadPlan::FetchHttp(_)) => Some(LoaderEntryKind::Http),
        Some(LoadPlan::MapFile(_)) => Some(LoaderEntryKind::Mmap),
        None => None,
    }
}

/// The spec-level payload of a plan.
pub open spec fn plan_name(p: Option<LoadPlan>) -> Seq<char> {
    match p {
        Some(LoadPlan::Native(n)) => n@,
        Some(LoadPlan::FetchHttp(n)) => n@,
        Some(LoadPlan::MapFile(n)) => n@,
        None => Seq::empty(),
    }
}

/// The whole loader chain, in its fixed order.
pub struct LoaderChain {
    /// The native-module entry.
    pub native: NativeLoader,
    /// The HTTP entry.
    pub http: HttpLoader,
    /// The memory-mapped file entry.
    pub mmap: MmapScriptLoader,
}

impl LoaderChain {
    /// Build the chain from its three entries.
    pub fn new(native: NativeLoader, http: HttpLoader, mmap: MmapScriptLoader) -> (r: LoaderChain)
        ensures
            r.native@ == native@,
            r.http == http,
            r.mmap.extensions_view() == mmap.extensions_view(),
            r.mmap.transpile == mmap.transpile,
            r.mmap.typescript == mmap.typescript,
            r.mmap.react == mmap.react,
    {
        LoaderChain { native, http, mmap }
    }

    /// Which entry claims `name`, and what the host is to do for it:
    /// entries are tried in the chain's fixed order and the first
    /// applicable one wins. `None` when no entry is applicable — the
    /// import then fails with `NotFound`.
    pub fn plan_load(&self, name: &str) -> (r: Option<LoadPlan>)
        ensures
            plan_kind(r) == chosen_entry(self.native@, self.mmap.extensions_view(), name@),
            r is Some ==> plan_name(r) == name@,
    {
        if self.native.recognizes(name) {
            Some(LoadPlan::Native(name.to_owned()))
        } else if crate::resolver::scheme_is_http(name) {
            Some(LoadPlan::FetchHttp(name.to_owned()))
        } else {
            match path_extension(name) {
                Some(e) => {
                    if self.mmap.has_extension(e.as_str()) {
                        Some(LoadPlan::MapFile(name.to_owned()))
                    } else {
                        None
                    }
                },
                None => None,
            }
        }
    }
}

} // verus!
