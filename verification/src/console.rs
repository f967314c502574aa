//! The console object and its value formatter.
//!
//! Script values are rendered the way the console prints them: primitives
//! by their text, arrays bracketed with comma-separated elements, objects
//! braced with `key: value` pairs, and both cut off with `[Array]` /
//! `[Object]` beyond a maximum depth. A value appearing as an object key
//! is rendered in a reduced "key" mode.
//!
//! The interpreter's values are opaque to this library; the host hands
//! the formatter a plain rendition of them. A float arrives already
//! rendered to its display text, since this library holds no floating
//! point.

use vstd::prelude::*;

use crate::numfmt::{dec_of_int, format_i32, format_i64};

verus! {

/// A plain rendition of one interpreter value, as the console reads it.
#[derive(Debug)]
pub enum JsVal {
    Null,
    Undefined,
    Bool(bool),
    Int(i32),
    /// A float, already rendered to its display text by the host.
    Float(String),
    /// A big integer, reduced to its 64-bit value.
    BigInt(i64),
    Str(String),
    Array(Vec<JsVal>),
    /// An object's properties, in their enumeration order.
    Object(Vec<(JsVal, JsVal)>),
    /// A symbol and its description, when it has one.
    Symbol(Option<String>),
    /// A function and its name, when it has a usable one.
    Function(Option<String>),
}

/// Options for one formatting step.
#[derive(Clone, Copy, Debug)]
pub struct FormatArgs {
    key: Option<bool>,
}

impl FormatArgs {
    /// The value is being rendered as an object key.
    pub closed spec fn is_key_spec(&self) -> bool {
        self.key == Some(true)
    }

    /// Is the value being rendered as an object key?
    pub fn is_key(&self) -> (r: bool)
        ensures
            r == self.is_key_spec(),
    {
        match self.key {
            Some(b) => b,
            None => false,
        }
    }

    /// The same options, in key mode.
    pub fn with_key(self) -> (r: Self)
        ensures
            r.is_key_spec(),
    {
        FormatArgs { key: Some(true) }
    }
}

impl Default for FormatArgs {
    /// The default options: not a key.
    fn default() -> (r: Self)
        ensures
            !r.is_key_spec(),
    {
        FormatArgs { key: None }
    }
}

/// The rendering of `v` at `depth`, cut off beyond `max`; `key` is the
/// reduced mode used for object keys.
pub open spec fn format_spec(v: JsVal, key: bool, depth: nat, max: nat) -> Seq<char>
    decreases max + 1 - depth, 0int, 0int,
{
    match v {
        JsVal::Null => "null"@,
        JsVal::Undefined => "undefined"@,
        JsVal::Bool(b) => if b {
            "true"@
        } else {
            "false"@
        },
        JsVal::Int(i) => dec_of_int(i as int),
        JsVal::Float(s) => s@,
        JsVal::BigInt(i) => dec_of_int(i as int) + "n"@,
        JsVal::Str(s) => s@,
        JsVal::Symbol(d) => "Symbol("@ + (match d {
            Some(x) => x@,
            None => Seq::empty(),
        }) + ")"@,
        JsVal::Function(name) => match name {
            Some(n) => "[Function: "@ + n@ + "]"@,
            None => "[Function (anonymous)]"@,
        },
        JsVal::Array(elems) => if depth > max {
            "[Array]"@
        } else if key {
            format_items_spec(elems@, elems@.len() as int, true, ","@, (depth + 1) as nat, max)
        } else {
            "[ "@ + format_items_spec(
                elems@,
                elems@.len() as int,
                false,
                ", "@,
                (depth + 1) as nat,
                max,
            ) + " ]"@
        },
        JsVal::Object(props) => if depth > max {
            "[Object]"@
        } else if key {
            "[object Object]"@
        } else {
            "{ "@ + format_props_spec(props@, props@.len() as int, (depth + 1) as nat, max)
                + " }"@
        },
    }
}

/// The rendering of the first `n` elements of an array, separated by
/// `sep`; `keyed` renders each element in key mode.
pub open spec fn format_items_spec(
    elems: Seq<JsVal>,
    n: int,
    keyed: bool,
    sep: Seq<char>,
    depth: nat,
    max: nat,
) -> Seq<char>
    decreases max + 1 - depth, n, 1int,
{
    if n <= 0 || n > elems.len() {
        Seq::empty()
    } else {
        format_items_spec(elems, n - 1, keyed, sep, depth, max) + (if n > 1 {
            sep
        } else {
            Seq::empty()
        }) + format_spec(elems[n - 1], keyed, depth, max)
    }
}

/// The rendering of the first `n` properties of an object: each key in
/// key mode, then `: `, then its value; nothing between properties.
pub open spec fn format_props_spec(props: Seq<(JsVal, JsVal)>, n: int, depth: nat, max: nat) -> Seq<
    char,
>
    decreases max + 1 - depth, n, 1int,
{
    if n <= 0 || n > props.len() {
        Seq::empty()
    } else {
        format_props_spec(props, n - 1, depth, max) + format_spec(props[n - 1].0, true, depth, max)
            + ": "@ + format_spec(props[n - 1].1, false, depth, max)
    }
}

/// A formatter for the console object: renders values up to a maximum
/// depth.
#[derive(Clone, Debug)]
pub struct Formatter {
    max_depth: usize,
}

impl Formatter {
    /// The configured maximum depth.
    pub closed spec fn spec_max_depth(&self) -> nat {
        self.max_depth as nat
    }

    /// A builder for a formatter.
    pub fn builder() -> (r: FormatterBuilder)
        ensures
            r.spec_setting() is None,
    {
        FormatterBuilder { max_depth: None }
    }

    /// Render one value.
    pub fn format(&self, value: &JsVal) -> (r: String)
        requires
            self.spec_max_depth() < usize::MAX,
        ensures
            r@ == format_spec(*value, false, 0, self.spec_max_depth()),
    {
        let mut out = String::new();
        let args = FormatArgs::default();
        self.format_into(&mut out, value, args, 0);
        out
    }

    /// Render one value into `out`, at `depth`.
    fn format_into(&self, out: &mut String, value: &JsVal, args: FormatArgs, depth: usize)
        requires
            self.spec_max_depth() < usize::MAX,
            depth <= self.spec_max_depth() + 1,
        ensures
            final(out)@ == old(out)@ + format_spec(
                *value,
                args.is_key_spec(),
                depth as nat,
                self.spec_max_depth(),
            ),
        decreases self.spec_max_depth() + 1 - depth, 0int,
    {
        let ghost max = self.spec_max_depth();
        let ghost key = args.is_key_spec();
        match value {
            JsVal::Null => {
                out.append("null");
            },
            JsVal::Undefined => {
                out.append("undefined");
            },
            JsVal::Bool(b) => {
                if *b {
                    out.append("true");
                } else {
                    out.append("false");
                }
            },
            JsVal::Int(i) => {
                let s = format_i32(*i);
                out.append(s.as_str());
            },
            JsVal::Float(s) => {
                out.append(s.as_str());
            },
            JsVal::BigInt(i) => {
                let s = format_i64(*i);
                out.append(s.as_str());
                out.append("n");
                assert(final(out)@ =~= old(out)@ + (dec_of_int(*i as int) + "n"@));
            },
            JsVal::Str(s) => {
                out.append(s.as_str());
            },
            JsVal::Symbol(d) => {
                out.append("Symbol(");
                match d {
                    Some(x) => {
                        out.append(x.as_str());
                    },
                    None => {},
                }
                out.append(")");
                assert(final(out)@ =~= old(out)@ + format_spec(*value, key, depth as nat, max));
            },
            JsVal::Function(name) => {
                match name {
                    Some(n) => {
                        out.append("[Function: ");
                        out.append(n.as_str());
                        out.append("]");
                        assert(final(out)@ =~= old(out)@ + ("[Function: "@ + n@ + "]"@));
                    },
                    None => {
                        out.append("[Function (anonymous)]");
                    },
                }
            },
            JsVal::Array(elems) => {
                if depth > self.max_depth {
                    out.append("[Array]");
                } else if args.is_key() {
                    self.format_elems(out, elems, true, ",", depth + 1);
                } else {
                    out.append("[ ");
                    self.format_elems(out, elems, false, ", ", depth + 1);
                    out.append(" ]");
                    assert(final(out)@ =~= old(out)@ + ("[ "@ + format_items_spec(
                        elems@,
                        elems@.len() as int,
                        false,
                        ", "@,
                        (depth + 1) as nat,
                        max,
                    ) + " ]"@));
                }
            },
            JsVal::Object(props) => {
                if depth > self.max_depth {
                    out.append("[Object]");
                } else if args.is_key() {
                    out.append("[object Object]");
                } else {
                    out.append("{ ");
                    self.format_properties(out, props, depth + 1);
                    out.append(" }");
                    assert(final(out)@ =~= old(out)@ + ("{ "@ + format_props_spec(
                        props@,
                        props@.len() as int,
                        (depth + 1) as nat,
                        max,
                    ) + " }"@));
                }
            },
        }
    }

    /// Render the elements of an array into `out`, separated by `sep`.
    fn format_elems(
        &self,
        out: &mut String,
        elems: &Vec<JsVal>,
        keyed: bool,
        sep: &str,
        depth: usize,
    )
        requires
            self.spec_max_depth() < usize::MAX,
            depth <= self.spec_max_depth() + 1,
        ensures
            final(out)@ == old(out)@ + format_items_spec(
                elems@,
                elems@.len() as int,
                keyed,
                sep@,
                depth as nat,
                self.spec_max_depth(),
            ),
        decreases self.spec_max_depth() + 1 - depth, 1int,
    {
        let ghost max = self.spec_max_depth();
        let mut i: usize = 0;
        while i < elems.len()
            invariant
                self.spec_max_depth() < usize::MAX,
                depth <= self.spec_max_depth() + 1,
                i <= elems@.len(),
                max == self.spec_max_depth(),
                out@ == old(out)@ + format_items_spec(
                    elems@,
                    i as int,
                    keyed,
                    sep@,
                    depth as nat,
                    max,
                ),
            decreases elems@.len() - i,
        {
            if i > 0 {
                out.append(sep);
            }
            let args = if keyed {
                FormatArgs::default().with_key()
            } else {
                FormatArgs::default()
            };
            self.format_into(out, &elems[i], args, depth);
            proof {
                assert(out@ =~= old(out)@ + format_items_spec(
                    elems@,
                    i + 1,
                    keyed,
                    sep@,
                    depth as nat,
                    max,
                ));
            }
            i += 1;
        }
    }

    /// Render the properties of an object into `out`.
    fn format_properties(&self, out: &mut String, props: &Vec<(JsVal, JsVal)>, depth: usize)
        requires
            self.spec_max_depth() < usize::MAX,
            depth <= self.spec_max_depth() + 1,
        ensures
            final(out)@ == old(out)@ + format_props_spec(
                props@,
                props@.len() as int,
                depth as nat,
                self.spec_max_depth(),
            ),
        decreases self.spec_max_depth() + 1 - depth, 1int,
    {
        let ghost max = self.spec_max_depth();
        let mut i: usize = 0;
        while i < props.len()
            invariant
                self.spec_max_depth() < usize::MAX,
                depth <= self.spec_max_depth() + 1,
                i <= props@.len(),
                max == self.spec_max_depth(),
                out@ == old(out)@ + format_props_spec(props@, i as int, depth as nat, max),
            decreases props@.len() - i,
        {
            let args = FormatArgs::default().with_key();
            self.format_into(out, &props[i].0, args, depth);
            out.append(": ");
            self.format_into(out, &props[i].1, FormatArgs::default(), depth);
            proof {
                assert(out@ =~= old(out)@ + format_props_spec(props@, i + 1, depth as nat, max));
            }
            i += 1;
        }
    }
}

impl Default for Formatter {
    /// The default formatter: maximum depth 10.
    fn default() -> (r: Self)
        ensures
            r.spec_max_depth() == 10,
    {
        Formatter { max_depth: 10 }
    }
}

/// Builder for a formatter.
#[derive(Clone, Debug)]
pub struct FormatterBuilder {
    max_depth: Option<usize>,
}

impl FormatterBuilder {
    /// The depth configured so far.
    pub closed spec fn spec_setting(&self) -> Option<nat> {
        match self.max_depth {
            Some(d) => Some(d as nat),
            None => None,
        }
    }

    /// Set the maximum depth to format, defaults to 10.
    ///
    /// When the depth is reached, the formatter does not render inner
    /// items and prints `[Array]` or `[Object]`.
    pub fn max_depth(self, max_depth: usize) -> (r: Self)
        ensures
            r.spec_setting() == Some(max_depth as nat),
    {
        FormatterBuilder { max_depth: Some(max_depth) }
    }

    /// Build the formatter.
    pub fn build(self) -> (r: Formatter)
        ensures
            r.spec_max_depth() == match self.spec_setting() {
                Some(d) => d,
                None => 10,
            },
    {
        Formatter {
            max_depth: match self.max_depth {
                Some(d) => d,
                None => 10,
            },
        }
    }
}

/// The console's whole message for one call: the values, each rendered
/// from depth zero, separated by `, `.
pub open spec fn print_spec(values: Seq<JsVal>, n: int, max: nat) -> Seq<char>
    decreases n,
{
    if n <= 0 || n > values.len() {
        Seq::empty()
    } else {
        print_spec(values, n - 1, max) + (if n > 1 {
            ", "@
        } else {
            Seq::<char>::empty()
        }) + format_spec(values[n - 1], false, 0, max)
    }
}

/// The console object: formats the values of one call and hands the
/// message to the host's log sink.
#[derive(Clone, Debug)]
pub struct Console {
    target: String,
    formatter: Formatter,
}

impl Console {
    /// The log target the host publishes messages under.
    pub closed spec fn spec_target(&self) -> Seq<char> {
        self.target@
    }

    /// The formatter in use.
    pub closed spec fn spec_formatter(&self) -> Formatter {
        self.formatter
    }

    /// A console publishing under `target`, rendering with `formatter`.
    pub fn new(target: &str, formatter: Formatter) -> (r: Self)
        ensures
            r.spec_target() == target@,
            r.spec_formatter() == formatter,
    {
        Console { target: target.to_owned(), formatter }
    }

    /// The message for one call: the values, comma-separated.
    pub fn print(&self, values: &Vec<JsVal>) -> (r: String)
        requires
            self.spec_formatter().spec_max_depth() < usize::MAX,
        ensures
            r@ == print_spec(
                values@,
                values@.len() as int,
                self.spec_formatter().spec_max_depth(),
            ),
    {
        let ghost max = self.formatter.spec_max_depth();
        let mut out = String::new();
        let mut i: usize = 0;
        while i < values.len()
            invariant
                self.formatter.spec_max_depth() < usize::MAX,
                i <= values@.len(),
                max == self.formatter.spec_max_depth(),
                out@ == print_spec(values@, i as int, max),
            decreases values@.len() - i,
        {
            if i > 0 {
                out.append(", ");
            }
            self.format_into_print(&mut out, &values[i]);
            proof {
                assert(out@ =~= print_spec(values@, i + 1, max));
            }
            i += 1;
        }
        out
    }

    /// Render one value of a call into `out`.
    fn format_into_print(&self, out: &mut String, value: &JsVal)
        requires
            self.spec_formatter().spec_max_depth() < usize::MAX,
        ensures
            final(out)@ == old(out)@ + format_spec(
                *value,
                false,
                0,
                self.spec_formatter().spec_max_depth(),
            ),
    {
        let s = self.formatter.format(value);
        out.append(s.as_str());
    }
}

} // verus!
