//! The engine: the interpreter's host-side state.
//!
//! The engine owns the cancellation root, the resolver chain, the loader
//! chain and the transformer switch. Construction wires the chains and
//! the interrupt hook before any script executes: the hook holds a child
//! of the root from the start, so the very first time the interpreter
//! polls it, it already observes the root. An engine leaves construction
//! running; `stop` begins the stopping that the supervisor's shutdown
//! sequence carries to its terminal state.
//!
//! The interpreter itself is an external collaborator: it takes source
//! text, executes it, and — because the host always evaluates under an
//! implicit top-level-await wrapper — hands back an object that carries
//! the real result under the fixed key `value`. The host must always
//! unwrap that key; the unwrapping is an explicit, documented step here,
//! not an incidental detail, since continuation semantics depend on it.

use vstd::prelude::*;

use crate::cancellation::{
    lemma_cancelled_via_parent, lemma_parent_before, CancellationTree, TokenId,
};
use crate::console::JsVal;
use crate::loader::LoaderChain;
use crate::resolver::ResolverChain;
use crate::strutil::str_eq;
use crate::transpile::{
    get_best_transpiling, infer_transpile_syntax_by_extension, inferred_syntax,
    EasySwcTranspilerError, SyntaxTag,
};

verus! {

/// What went wrong inside `evaluate` or `run_module`.
#[derive(Clone, Debug, PartialEq, Eq)]
pub enum EngineError {
    /// The transformer failed; wraps its own error.
    EasySwcTranspiler(EasySwcTranspilerError),
    /// The interpreter threw; carries the rendition of the thrown value.
    Rquickjs(String),
}

/// The source `evaluate` hands on: either ready for the interpreter, or
/// first owed one pass through the transformer.
pub enum EvalPrep {
    /// Hand the text to the interpreter as it stands.
    Ready(String),
    /// Run the transformer over the text with this hint first, then hand
    /// the result to the interpreter.
    Transform(String, SyntaxTag),
}

/// The engine's host-side state.
pub struct Engine {
    /// The cancellation tokens the engine created.
    pub tree: CancellationTree,
    /// The root token; `stop` cancels it.
    pub root: TokenId,
    /// The child of the root that the interrupt hook polls.
    pub interrupt_token: TokenId,
    /// The resolver chain, fixed at construction.
    pub resolver: ResolverChain,
    /// The loader chain, fixed at construction.
    pub loader: LoaderChain,
    /// Run sources through the transformer before evaluation.
    pub transpile: bool,
    /// The typed superset is enabled.
    pub typescript: bool,
    /// The component syntax is enabled.
    pub react: bool,
}

impl Engine {
    /// The engine's wiring is sound: the tokens exist, and the interrupt
    /// hook's token is a direct, never directly-cancelled child of the
    /// root, so cancelling the root is exactly what the hook observes.
    pub open spec fn wired(&self) -> bool {
        &&& self.tree.well_formed()
        &&& self.tree.holds(self.root)
        &&& self.tree.holds(self.interrupt_token)
        &&& self.tree.parent_of(self.interrupt_token) == Some(self.root)
        &&& !self.tree.flagged(self.interrupt_token)
    }

    /// The engine has been stopped.
    pub open spec fn stopped(&self) -> bool {
        self.tree.cancelled(self.root)
    }

    /// Build an engine: create the cancellation root, wire the interrupt
    /// hook's token under it, and fix the chains — all before any script
    /// can run.
    pub fn new(
        resolver: ResolverChain,
        loader: LoaderChain,
        transpile: bool,
        typescript: bool,
        react: bool,
    ) -> (r: Engine)
        ensures
            r.wired(),
            !r.stopped(),
            !r.tree.cancelled(r.interrupt_token),
            r.transpile == transpile,
            r.typescript == typescript,
            r.react == react,
    {
        let mut tree = CancellationTree::new();
        let root = tree.new_root();
        let interrupt_token = tree.child(root);
        Engine { tree, root, interrupt_token, resolver, loader, transpile, typescript, react }
    }

    /// Stop the engine: cancel the root token. Idempotent — a second call
    /// changes nothing a caller can observe.
    pub fn stop(&mut self)
        requires
            old(self).wired(),
        ensures
            final(self).wired(),
            final(self).stopped(),
            final(self).tree.cancelled(final(self).interrupt_token),
            final(self).root == old(self).root,
            final(self).interrupt_token == old(self).interrupt_token,
            final(self).resolver == old(self).resolver,
            final(self).loader == old(self).loader,
            final(self).transpile == old(self).transpile,
            final(self).typescript == old(self).typescript,
            final(self).react == old(self).react,
            final(self).tree.len() == old(self).tree.len(),
            // monotone: nothing is uncancelled, nothing else newly cancelled
            forall|j: TokenId|
                old(self).tree.holds(j) && old(self).tree.cancelled(j)
                    ==> final(self).tree.cancelled(j),
            forall|j: TokenId|
                old(self).tree.holds(j) && !old(self).tree.is_descendant_of(j, old(self).root)
                    ==> final(self).tree.cancelled(j) == old(self).tree.cancelled(j),
            forall|j: TokenId|
                old(self).tree.holds(j) && old(self).tree.is_descendant_of(j, old(self).root)
                    ==> final(self).tree.cancelled(j),
    {
        let root = self.root;
        proof {
            lemma_parent_before(&self.tree, self.interrupt_token);
        }
        self.tree.cancel(root);
        proof {
            lemma_cancelled_via_parent(&self.tree, self.interrupt_token);
        }
    }

    /// The interrupt hook's poll: the interpreter calls this from its own
    /// instruction dispatch and aborts when it answers `true`. It answers
    /// `true` exactly when the engine has been stopped.
    pub fn interrupt_poll(&self) -> (r: bool)
        requires
            self.wired(),
        ensures
            r == self.stopped(),
    {
        proof {
            lemma_cancelled_via_parent(&self.tree, self.interrupt_token);
        }
        self.tree.is_cancelled(self.interrupt_token)
    }

    /// Open a child of the root for one operation; the operation's
    /// combinator polls it, so a stop reaches the operation.
    pub fn operation_token(&mut self) -> (t: TokenId)
        requires
            old(self).wired(),
        ensures
            final(self).wired(),
            final(self).tree.holds(t),
            final(self).tree.parent_of(t) == Some(final(self).root),
            final(self).tree.cancelled(t) == old(self).stopped(),
            final(self).root == old(self).root,
            final(self).interrupt_token == old(self).interrupt_token,
            final(self).stopped() == old(self).stopped(),
            final(self).resolver == old(self).resolver,
            final(self).loader == old(self).loader,
    {
        let root = self.root;
        self.tree.child(root)
    }

    /// The first step of `evaluate`: decide what is to happen to the
    /// source before the interpreter sees it. With the transformer
    /// configured, the source is owed one pass under the richest syntax
    /// the host can transpile from; without it, the text goes through
    /// unchanged.
    pub fn prepare_eval(&self, src: &str) -> (r: EvalPrep)
        ensures
            match r {
                EvalPrep::Ready(text) => !self.transpile && text@ == src@,
                EvalPrep::Transform(text, syntax) => self.transpile && text@ == src@ && syntax
                    == eval_syntax(self.typescript, self.react),
            },
    {
        if self.transpile {
            let best = get_best_transpiling(self.typescript, self.react);
            let syntax = match infer_transpile_syntax_by_extension(
                best,
                self.typescript,
                self.react,
            ) {
                Some(s) => s,
                None => SyntaxTag::base(),
            };
            assert(syntax == eval_syntax(self.typescript, self.react));
            EvalPrep::Transform(src.to_owned(), syntax)
        } else {
            EvalPrep::Ready(src.to_owned())
        }
    }

    /// The second step of `evaluate`, when a transformation was owed: the
    /// host ran the transformer and hands its outcome back. A transformer
    /// failure surfaces as its own error kind.
    pub fn finish_transform(&self, outcome: Result<String, EasySwcTranspilerError>) -> (r: Result<
        String,
        EngineError,
    >)
        ensures
            match outcome {
                Ok(text) => match r {
                    Ok(t) => t@ == text@,
                    Err(_) => false,
                },
                Err(e) => r == Err::<String, EngineError>(EngineError::EasySwcTranspiler(e)),
            },
    {
        match outcome {
            Ok(text) => Ok(text),
            Err(e) => Err(EngineError::EasySwcTranspiler(e)),
        }
    }
}

/// The richest extension the host's switches allow, as `evaluate` sees
/// it.
pub open spec fn best_extension(typescript: bool, react: bool) -> Seq<char> {
    if typescript {
        if react {
            "tsx"@
        } else {
            "ts"@
        }
    } else {
        if react {
            "jsx"@
        } else {
            "js"@
        }
    }
}

/// The syntax hint `evaluate` transpiles under: inferred from the richest
/// extension the host's switches allow, the plain base language when
/// nothing fits.
pub open spec fn eval_syntax(typescript: bool, react: bool) -> SyntaxTag {
    match inferred_syntax(best_extension(typescript, react), typescript, react) {
        Some(s) => s,
        None => SyntaxTag::Es { jsx: false },
    }
}

/// The source text `run_module` evaluates for a file: a top-level await
/// of a dynamic import, so that the import runs through the resolver and
/// loader chains, and the awaited object carries the result under the
/// fixed key `value`.
pub fn import_expression(filename: &str) -> (r: String)
    ensures
        r@ == "await import(`"@ + filename@ + "`)"@,
{
    let mut src = "await import(`".to_owned();
    src.append(filename);
    src.append("`)");
    proof {
        assert(src@ =~= "await import(`"@ + filename@ + "`)"@);
    }
    src
}

/// The binding of the first property of `props` whose key is the string
/// `key`, in enumeration order.
pub open spec fn lookup_key(props: Seq<(JsVal, JsVal)>, key: Seq<char>) -> Option<JsVal>
    decreases props.len(),
{
    if props.len() == 0 {
        None
    } else {
        match props[0].0 {
            JsVal::Str(s) => if s@ == key {
                Some(props[0].1)
            } else {
                lookup_key(props.drop_first(), key)
            },
            _ => lookup_key(props.drop_first(), key),
        }
    }
}

/// The real result inside an awaited evaluation object: the binding of
/// the fixed key `value`, when the awaited value is an object that has
/// one.
pub open spec fn tla_value_of(awaited: JsVal) -> Option<JsVal> {
    match awaited {
        JsVal::Object(props) => lookup_key(props@, "value"@),
        _ => None,
    }
}

/// The final step of `evaluate` and `run_module`: unwrap the implicit
/// top-level-await object that the interpreter hands back. The real
/// result sits under the fixed key `value`; an awaited value without it
/// is an interpreter-contract violation and surfaces as an interpreter
/// error.
pub fn unwrap_awaited(awaited: &JsVal) -> (r: Result<&JsVal, EngineError>)
    ensures
        match tla_value_of(*awaited) {
            Some(v) => match r {
                Ok(x) => *x == v,
                Err(_) => false,
            },
            None => match r {
                Ok(_) => false,
                Err(e) => e is Rquickjs,
            },
        },
{
    let props = match awaited {
        JsVal::Object(props) => props,
        _ => {
            return Err(EngineError::Rquickjs("awaited evaluation is not an object".to_owned()));
        },
    };
    assert(*awaited matches JsVal::Object(p) && p@ == props@);
    let mut i: usize = 0;
    assert(props@.skip(0) =~= props@);
    while i < props.len()
        invariant
            i <= props@.len(),
            tla_value_of(*awaited) == lookup_key(props@, "value"@),
            lookup_key(props@, "value"@) == lookup_key(props@.skip(i as int), "value"@),
        decreases props@.len() - i,
    {
        proof {
            assert(props@.skip(i as int).drop_first() =~= props@.skip(i + 1));
        }
        match &props[i].0 {
            JsVal::Str(s) => {
                if str_eq(s.as_str(), "value") {
                    assert(props@.skip(i as int)[0] == props@[i as int]);
                    assert(props@[i as int].0 == JsVal::Str(*s));
                    assert(lookup_key(props@.skip(i as int), "value"@) == Some(
                        props@[i as int].1,
                    ));
                    assert(tla_value_of(*awaited) == Some(props@[i as int].1));
                    let result = &props[i].1;
                    assert(*result == props@[i as int].1);
                    return Ok(result);
                }
            },
            _ => {},
        }
        assert(props@.skip(i as int)[0] == props@[i as int]);
        i += 1;
    }
    assert(props@.skip(i as int).len() == 0);
    Err(EngineError::Rquickjs("awaited evaluation carries no value".to_owned()))
}

} // verus!
