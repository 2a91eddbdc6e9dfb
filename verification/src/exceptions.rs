//! Elixir exception structs: maps with `__struct__` naming the module and
//! `__exception__` set to `true`, and their reading back.
use vstd::prelude::*;
use vstd::string::*;
use vstd::utf8;
use crate::term::{self, Term, TermV};

verus! {

/// The conversions every exception struct has.
pub trait ElixirExceptionExt {
    /// The Elixir module of the exception.
    fn module_name() -> &'static str;

    /// The exception as a struct term.
    fn to_term(&self) -> Term;
}

/// The entries every exception struct starts with.
pub open spec fn exception_base(module: Seq<char>) -> Seq<(TermV, TermV)> {
    seq![
        (TermV::Atom("__struct__"@), TermV::Atom(module)),
        (TermV::Atom("__exception__"@), TermV::Atom("true"@)),
    ]
}

fn exception_entries(module: &str) -> (r: Vec<(Term, Term)>)
    ensures
        Term::pair_values(r@) == exception_base(module@),
{
    let entries: Vec<(Term, Term)> = vec![
        term::atom_entry("__struct__", Term::atom(module)),
        term::atom_entry("__exception__", Term::boolean(true)),
    ];
    proof {
        term::lemma_pair_values_index(entries@);
        assert(Term::pair_values(entries@) =~= exception_base(module@));
    }
    entries
}

fn push_entry(entries: &mut Vec<(Term, Term)>, key: &str, value: Term)
    ensures
        Term::pair_values(final(entries)@) == Term::pair_values(old(entries)@).push(
            (TermV::Atom(key@), value@),
        ),
{
    let e = term::atom_entry(key, value);
    proof {
        term::lemma_pair_values_push(entries@, e);
    }
    entries.push(e);
}

/// Text as a UTF-8 binary term.
fn binary_text(s: &String) -> (r: Term)
    ensures
        r@ == TermV::Binary(utf8::encode_utf8(s@)),
{
    Term::Binary(s.as_str().as_bytes_vec())
}

/// An optional text as a binary, `nil` when absent.
pub open spec fn text_or_nil(t: Option<Seq<char>>) -> TermV {
    match t {
        Some(s) => TermV::Binary(utf8::encode_utf8(s)),
        None => TermV::Atom("nil"@),
    }
}

fn text_or_nil_term(t: &Option<String>) -> (r: Term)
    ensures
        r@ == text_or_nil(opt_text(*t)),
{
    match t {
        Some(s) => binary_text(s),
        None => Term::elixir_nil(),
    }
}

pub open spec fn opt_text(t: Option<String>) -> Option<Seq<char>> {
    match t {
        Some(s) => Some(s@),
        None => None,
    }
}

/// Whether a module name starts with `Elixir.`.
pub open spec fn has_elixir_prefix(m: Seq<char>) -> bool {
    m.len() >= 7 && m.subrange(0, 7) == "Elixir."@
}

/// A module name with `Elixir.` in front, unless it has it already.
pub open spec fn elixir_module(m: Seq<char>) -> Seq<char> {
    if has_elixir_prefix(m) {
        m
    } else {
        "Elixir."@ + m
    }
}

/// A module name without its `Elixir.` prefix, if it has one.
pub open spec fn strip_elixir(m: Seq<char>) -> Seq<char> {
    if has_elixir_prefix(m) {
        m.subrange(7, m.len() as int)
    } else {
        m
    }
}

fn starts_with_elixir(s: &str) -> (r: bool)
    ensures
        r == has_elixir_prefix(s@),
{
    proof {
        reveal_strlit("Elixir.");
    }
    let n = s.unicode_len();
    if n < 7 {
        return false;
    }
    let r = s.get_char(0) == 'E' && s.get_char(1) == 'l' && s.get_char(2) == 'i' && s.get_char(3)
        == 'x' && s.get_char(4) == 'i' && s.get_char(5) == 'r' && s.get_char(6) == '.';
    proof {
        if r {
            assert(s@.subrange(0, 7) =~= "Elixir."@);
        } else {
            if s@.subrange(0, 7) == "Elixir."@ {
                assert(s@[0] == s@.subrange(0, 7)[0]);
                assert(s@[1] == s@.subrange(0, 7)[1]);
                assert(s@[2] == s@.subrange(0, 7)[2]);
                assert(s@[3] == s@.subrange(0, 7)[3]);
                assert(s@[4] == s@.subrange(0, 7)[4]);
                assert(s@[5] == s@.subrange(0, 7)[5]);
                assert(s@[6] == s@.subrange(0, 7)[6]);
            }
        }
    }
    r
}

fn with_elixir_prefix(s: &str) -> (r: String)
    ensures
        r@ == elixir_module(s@),
{
    if starts_with_elixir(s) {
        String::from_str(s)
    } else {
        let mut m = String::from_str("Elixir.");
        m.append(s);
        m
    }
}

fn without_elixir_prefix(s: &str) -> (r: String)
    ensures
        r@ == strip_elixir(s@),
{
    if starts_with_elixir(s) {
        let n = s.unicode_len();
        String::from_str(s.substring_char(7, n))
    } else {
        String::from_str(s)
    }
}

/// The exception struct of a module with a `message` binary.
pub open spec fn message_exception_term(module: Seq<char>, message: Seq<char>) -> TermV {
    TermV::ErlMap(
        exception_base(module) + seq![(TermV::Atom("message"@), TermV::Binary(utf8::encode_utf8(message)))],
    )
}

/// The message of an exception struct of `module`: the text at `message`.
pub open spec fn message_of_exception(t: TermV, module: Seq<char>) -> Option<Seq<char>> {
    if term::struct_module(t) != Some(module) {
        None
    } else {
        term::string_field_of(t, "message"@)
    }
}

fn message_exception_to_term(module: &str, message: &String) -> (r: Term)
    ensures
        r@ == message_exception_term(module@, message@),
{
    let mut entries = exception_entries(module);
    push_entry(&mut entries, "message", binary_text(message));
    assert(Term::pair_values(entries@) =~= message_exception_term(module@, message@)->ErlMap_0);
    term::erl_map(entries)
}

fn message_exception_from_term(t: &Term, module: &str) -> (r: Option<String>)
    ensures
        match message_of_exception(t@, module@) {
            Some(m) => r matches Some(s) && s@ == m,
            None => r is None,
        },
{
    if !t.is_struct_of(module) {
        return None;
    }
    match t.map_get("message") {
        Some(v) => v.as_erlang_string(),
        None => None,
    }
}

/// The exception struct of a module with a `term` field.
pub open spec fn term_exception_term(module: Seq<char>, value: TermV) -> TermV {
    TermV::ErlMap(exception_base(module) + seq![(TermV::Atom("term"@), value)])
}

/// The value at `term` of an exception struct of `module`.
pub open spec fn term_of_exception(t: TermV, module: Seq<char>) -> Option<TermV> {
    if term::struct_module(t) != Some(module) {
        None
    } else {
        term::map_value(t, "term"@)
    }
}

fn term_exception_to_term(module: &str, value: &Term) -> (r: Term)
    ensures
        r@ == term_exception_term(module@, value@),
{
    let mut entries = exception_entries(module);
    push_entry(&mut entries, "term", value.duplicate());
    assert(Term::pair_values(entries@) =~= term_exception_term(module@, value@)->ErlMap_0);
    term::erl_map(entries)
}

fn term_exception_from_term(t: &Term, module: &str) -> (r: Option<Term>)
    ensures
        match term_of_exception(t@, module@) {
            Some(v) => r matches Some(x) && x@ == v,
            None => r is None,
        },
{
    if !t.is_struct_of(module) {
        return None;
    }
    match t.map_get("term") {
        Some(v) => Some(v.duplicate()),
        None => None,
    }
}

/// `ArgumentError`: an argument with an unexpected value or type.
#[derive(Debug, Clone, PartialEq, Eq)]
pub struct ArgumentError {
    pub message: String,
}

impl ArgumentError {
    pub fn new(message: &str) -> (r: Self)
        ensures
            r.message@ == message@,
    {
        ArgumentError { message: String::from_str(message) }
    }

    /// The error held by an `ArgumentError` struct with a text message.
    pub fn from_term(term: &Term) -> (r: Option<Self>)
        ensures
            match message_of_exception(term@, "Elixir.ArgumentError"@) {
                Some(m) => r matches Some(e) && e.message@ == m,
                None => r is None,
            },
    {
        match message_exception_from_term(term, "Elixir.ArgumentError") {
            Some(message) => Some(ArgumentError { message }),
            None => None,
        }
    }
}

impl ElixirExceptionExt for ArgumentError {
    fn module_name() -> (r: &'static str)
        ensures
            r@ == "Elixir.ArgumentError"@,
    {
        "Elixir.ArgumentError"
    }

    fn to_term(&self) -> (r: Term)
        ensures
            r@ == message_exception_term("Elixir.ArgumentError"@, self.message@),
    {
        message_exception_to_term("Elixir.ArgumentError", &self.message)
    }
}

/// `RuntimeError`: a general runtime error.
#[derive(Debug, Clone, PartialEq, Eq)]
pub struct RuntimeError {
    pub message: String,
}

impl RuntimeError {
    pub fn new(message: &str) -> (r: Self)
        ensures
            r.message@ == message@,
    {
        RuntimeError { message: String::from_str(message) }
    }

    /// The error held by a `RuntimeError` struct with a text message.
    pub fn from_term(term: &Term) -> (r: Option<Self>)
        ensures
            match message_of_exception(term@, "Elixir.RuntimeError"@) {
                Some(m) => r matches Some(e) && e.message@ == m,
                None => r is None,
            },
    {
        match message_exception_from_term(term, "Elixir.RuntimeError") {
            Some(message) => Some(RuntimeError { message }),
            None => None,
        }
    }
}

impl ElixirExceptionExt for RuntimeError {
    fn module_name() -> (r: &'static str)
        ensures
            r@ == "Elixir.RuntimeError"@,
    {
        "Elixir.RuntimeError"
    }

    fn to_term(&self) -> (r: Term)
        ensures
            r@ == message_exception_term("Elixir.RuntimeError"@, self.message@),
    {
        message_exception_to_term("Elixir.RuntimeError", &self.message)
    }
}

/// `ArithmeticError`: a bad operand, such as a division by zero.
#[derive(Debug, Clone, PartialEq, Eq)]
pub struct ArithmeticError {
    pub message: String,
}

impl ArithmeticError {
    pub fn new(message: &str) -> (r: Self)
        ensures
            r.message@ == message@,
    {
        ArithmeticError { message: String::from_str(message) }
    }

    /// "bad argument in arithmetic expression".
    pub fn bad_argument() -> (r: Self)
        ensures
            r.message@ == "bad argument in arithmetic expression"@,
    {
        Self::new("bad argument in arithmetic expression")
    }

    /// The error held by an `ArithmeticError` struct with a text message.
    pub fn from_term(term: &Term) -> (r: Option<Self>)
        ensures
            match message_of_exception(term@, "Elixir.ArithmeticError"@) {
                Some(m) => r matches Some(e) && e.message@ == m,
                None => r is None,
            },
    {
        match message_exception_from_term(term, "Elixir.ArithmeticError") {
            Some(message) => Some(ArithmeticError { message }),
            None => None,
        }
    }
}

impl ElixirExceptionExt for ArithmeticError {
    fn module_name() -> (r: &'static str)
        ensures
            r@ == "Elixir.ArithmeticError"@,
    {
        "Elixir.ArithmeticError"
    }

    fn to_term(&self) -> (r: Term)
        ensures
            r@ == message_exception_term("Elixir.ArithmeticError"@, self.message@),
    {
        message_exception_to_term("Elixir.ArithmeticError", &self.message)
    }
}

/// `MatchError`: a pattern that did not match the value.
#[derive(Debug)]
pub struct MatchError {
    pub term: Term,
}

impl MatchError {
    pub fn new(term: Term) -> (r: Self)
        ensures
            r.term == term,
    {
        MatchError { term }
    }

    /// The error held by a `MatchError` struct with a `term`.
    pub fn from_term(term: &Term) -> (r: Option<Self>)
        ensures
            match term_of_exception(term@, "Elixir.MatchError"@) {
                Some(v) => r matches Some(e) && e.term@ == v,
                None => r is None,
            },
    {
        match term_exception_from_term(term, "Elixir.MatchError") {
            Some(t) => Some(MatchError { term: t }),
            None => None,
        }
    }
}

impl ElixirExceptionExt for MatchError {
    fn module_name() -> (r: &'static str)
        ensures
            r@ == "Elixir.MatchError"@,
    {
        "Elixir.MatchError"
    }

    fn to_term(&self) -> (r: Term)
        ensures
            r@ == term_exception_term("Elixir.MatchError"@, self.term@),
    {
        term_exception_to_term("Elixir.MatchError", &self.term)
    }
}

/// `BadMapError`: a map operation on something that is not a map.
#[derive(Debug)]
pub struct BadMapError {
    pub term: Term,
}

impl BadMapError {
    pub fn new(term: Term) -> (r: Self)
        ensures
            r.term == term,
    {
        BadMapError { term }
    }

    /// The error held by a `BadMapError` struct with a `term`.
    pub fn from_term(term: &Term) -> (r: Option<Self>)
        ensures
            match term_of_exception(term@, "Elixir.BadMapError"@) {
                Some(v) => r matches Some(e) && e.term@ == v,
                None => r is None,
            },
    {
        match term_exception_from_term(term, "Elixir.BadMapError") {
            Some(t) => Some(BadMapError { term: t }),
            None => None,
        }
    }
}

impl ElixirExceptionExt for BadMapError {
    fn module_name() -> (r: &'static str)
        ensures
            r@ == "Elixir.BadMapError"@,
    {
        "Elixir.BadMapError"
    }

    fn to_term(&self) -> (r: Term)
        ensures
            r@ == term_exception_term("Elixir.BadMapError"@, self.term@),
    {
        term_exception_to_term("Elixir.BadMapError", &self.term)
    }
}

/// `BadFunctionError`: a call of something that is not a function.
#[derive(Debug)]
pub struct BadFunctionError {
    pub term: Term,
}

impl BadFunctionError {
    pub fn new(term: Term) -> (r: Self)
        ensures
            r.term == term,
    {
        BadFunctionError { term }
    }

    /// The error held by a `BadFunctionError` struct with a `term`.
    pub fn from_term(term: &Term) -> (r: Option<Self>)
        ensures
            match term_of_exception(term@, "Elixir.BadFunctionError"@) {
                Some(v) => r matches Some(e) && e.term@ == v,
                None => r is None,
            },
    {
        match term_exception_from_term(term, "Elixir.BadFunctionError") {
            Some(t) => Some(BadFunctionError { term: t }),
            None => None,
        }
    }
}

impl ElixirExceptionExt for BadFunctionError {
    fn module_name() -> (r: &'static str)
        ensures
            r@ == "Elixir.BadFunctionError"@,
    {
        "Elixir.BadFunctionError"
    }

    fn to_term(&self) -> (r: Term)
        ensures
            r@ == term_exception_term("Elixir.BadFunctionError"@, self.term@),
    {
        term_exception_to_term("Elixir.BadFunctionError", &self.term)
    }
}

/// `CaseClauseError`: no `case` clause matched.
#[derive(Debug)]
pub struct CaseClauseError {
    pub term: Term,
}

impl CaseClauseError {
    pub fn new(term: Term) -> (r: Self)
        ensures
            r.term == term,
    {
        CaseClauseError { term }
    }

    /// The error held by a `CaseClauseError` struct with a `term`.
    pub fn from_term(term: &Term) -> (r: Option<Self>)
        ensures
            match term_of_exception(term@, "Elixir.CaseClauseError"@) {
                Some(v) => r matches Some(e) && e.term@ == v,
                None => r is None,
            },
    {
        match term_exception_from_term(term, "Elixir.CaseClauseError") {
            Some(t) => Some(CaseClauseError { term: t }),
            None => None,
        }
    }
}

impl ElixirExceptionExt for CaseClauseError {
    fn module_name() -> (r: &'static str)
        ensures
            r@ == "Elixir.CaseClauseError"@,
    {
        "Elixir.CaseClauseError"
    }

    fn to_term(&self) -> (r: Term)
        ensures
            r@ == term_exception_term("Elixir.CaseClauseError"@, self.term@),
    {
        term_exception_to_term("Elixir.CaseClauseError", &self.term)
    }
}

/// `WithClauseError`: no `with` clause matched.
#[derive(Debug)]
pub struct WithClauseError {
    pub term: Term,
}

impl WithClauseError {
    pub fn new(term: Term) -> (r: Self)
        ensures
            r.term == term,
    {
        WithClauseError { term }
    }

    /// The error held by a `WithClauseError` struct with a `term`.
    pub fn from_term(term: &Term) -> (r: Option<Self>)
        ensures
            match term_of_exception(term@, "Elixir.WithClauseError"@) {
                Some(v) => r matches Some(e) && e.term@ == v,
                None => r is None,
            },
    {
        match term_exception_from_term(term, "Elixir.WithClauseError") {
            Some(t) => Some(WithClauseError { term: t }),
            None => None,
        }
    }
}

impl ElixirExceptionExt for WithClauseError {
    fn module_name() -> (r: &'static str)
        ensures
            r@ == "Elixir.WithClauseError"@,
    {
        "Elixir.WithClauseError"
    }

    fn to_term(&self) -> (r: Term)
        ensures
            r@ == term_exception_term("Elixir.WithClauseError"@, self.term@),
    {
        term_exception_to_term("Elixir.WithClauseError", &self.term)
    }
}

/// `CondClauseError`: no `cond` clause was truthy.
#[derive(Debug, Clone, Copy, PartialEq, Eq, Structural)]
pub struct CondClauseError;

impl CondClauseError {
    pub fn new() -> (r: Self)
        ensures
            r == CondClauseError,
    {
        CondClauseError
    }

    /// A `CondClauseError` struct term gives the error.
    pub fn from_term(term: &Term) -> (r: Option<Self>)
        ensures
            r is Some <==> term::struct_module(term@) == Some("Elixir.CondClauseError"@),
    {
        if !term.is_struct_of("Elixir.CondClauseError") {
            return None;
        }
        Some(CondClauseError)
    }
}

impl Default for CondClauseError {
    fn default() -> (r: Self)
        ensures
            r == CondClauseError,
    {
        CondClauseError
    }
}

impl ElixirExceptionExt for CondClauseError {
    fn module_name() -> (r: &'static str)
        ensures
            r@ == "Elixir.CondClauseError"@,
    {
        "Elixir.CondClauseError"
    }

    fn to_term(&self) -> (r: Term)
        ensures
            r@ == TermV::ErlMap(exception_base("Elixir.CondClauseError"@)),
    {
        let entries = exception_entries("Elixir.CondClauseError");
        term::erl_map(entries)
    }
}

/// `KeyError`: a key missing from a map or keyword list.
#[derive(Debug)]
pub struct KeyError {
    pub key: Term,
    pub term: Term,
    pub message: Option<String>,
}

/// The struct term of a key error.
pub open spec fn key_error_term(key: TermV, container: TermV, message: Option<Seq<char>>) -> TermV {
    TermV::ErlMap(
        exception_base("Elixir.KeyError"@) + seq![
            (TermV::Atom("key"@), key),
            (TermV::Atom("term"@), container),
            (TermV::Atom("message"@), text_or_nil(message)),
        ],
    )
}

/// The key, container and message a `KeyError` struct holds; the message is
/// absent unless it is text.
pub open spec fn key_error_of_term(t: TermV) -> Option<(TermV, TermV, Option<Seq<char>>)> {
    if term::struct_module(t) != Some("Elixir.KeyError"@) {
        None
    } else {
        match (term::map_value(t, "key"@), term::map_value(t, "term"@)) {
            (Some(k), Some(c)) => Some((k, c, term::string_field_of(t, "message"@))),
            _ => None,
        }
    }
}

impl KeyError {
    pub fn new(key: Term, term: Term) -> (r: Self)
        ensures
            r.key == key,
            r.term == term,
            r.message is None,
    {
        KeyError { key, term, message: None }
    }

    pub fn with_message(key: Term, term: Term, message: &str) -> (r: Self)
        ensures
            r.key == key,
            r.term == term,
            r.message matches Some(m) && m@ == message@,
    {
        KeyError { key, term, message: Some(String::from_str(message)) }
    }

    /// The error held by a `KeyError` struct with a key and a container.
    pub fn from_term(term: &Term) -> (r: Option<Self>)
        ensures
            match key_error_of_term(term@) {
                Some((k, c, m)) => r matches Some(e) && e.key@ == k && e.term@ == c && opt_text(
                    e.message,
                ) == m,
                None => r is None,
            },
    {
        if !term.is_struct_of("Elixir.KeyError") {
            return None;
        }
        let key = match term.map_get("key") {
            Some(k) => k.duplicate(),
            None => {
                return None;
            },
        };
        let container = match term.map_get("term") {
            Some(c) => c.duplicate(),
            None => {
                return None;
            },
        };
        let message = match term.map_get("message") {
            Some(v) => v.as_erlang_string(),
            None => None,
        };
        Some(KeyError { key, term: container, message })
    }
}

impl ElixirExceptionExt for KeyError {
    fn module_name() -> (r: &'static str)
        ensures
            r@ == "Elixir.KeyError"@,
    {
        "Elixir.KeyError"
    }

    fn to_term(&self) -> (r: Term)
        ensures
            r@ == key_error_term(self.key@, self.term@, opt_text(self.message)),
    {
        let mut entries = exception_entries("Elixir.KeyError");
        push_entry(&mut entries, "key", self.key.duplicate());
        push_entry(&mut entries, "term", self.term.duplicate());
        push_entry(&mut entries, "message", text_or_nil_term(&self.message));
        assert(Term::pair_values(entries@) =~= key_error_term(
            self.key@,
            self.term@,
            opt_text(self.message),
        )->ErlMap_0);
        let r = term::erl_map(entries);
        assert(r@ == key_error_term(self.key@, self.term@, opt_text(self.message)));
        r
    }
}

/// `UndefinedFunctionError`: a call of a function that does not exist.
#[derive(Debug, Clone, PartialEq, Eq)]
pub struct UndefinedFunctionError {
    pub module: String,
    pub function: String,
    pub arity: u8,
    pub reason: Option<String>,
}

/// The struct term of an undefined-function error: the module as an atom with
/// the `Elixir.` prefix.
pub open spec fn undefined_function_term(
    module: Seq<char>,
    function: Seq<char>,
    arity: u8,
    reason: Option<Seq<char>>,
) -> TermV {
    TermV::ErlMap(
        exception_base("Elixir.UndefinedFunctionError"@) + seq![
            (TermV::Atom("module"@), TermV::Atom(elixir_module(module))),
            (TermV::Atom("function"@), TermV::Atom(function)),
            (TermV::Atom("arity"@), TermV::Integer(arity as i64)),
            (TermV::Atom("reason"@), text_or_nil(reason)),
        ],
    )
}

/// The name of an atom term.
pub open spec fn atom_name_of(t: Option<TermV>) -> Option<Seq<char>> {
    match t {
        Some(TermV::Atom(n)) => Some(n),
        _ => None,
    }
}

/// The module (without `Elixir.`), function, arity and reason an
/// `UndefinedFunctionError` struct holds.
pub open spec fn undefined_function_of_term(t: TermV) -> Option<
    (Seq<char>, Seq<char>, u8, Option<Seq<char>>),
> {
    if term::struct_module(t) != Some("Elixir.UndefinedFunctionError"@) {
        None
    } else {
        match (
            atom_name_of(term::map_value(t, "module"@)),
            atom_name_of(term::map_value(t, "function"@)),
            term::integer_field_of(t, "arity"@),
        ) {
            (Some(m), Some(f), Some(a)) => Some(
                (strip_elixir(m), f, a as u8, term::string_field_of(t, "reason"@)),
            ),
            _ => None,
        }
    }
}

impl UndefinedFunctionError {
    pub fn new(module: &str, function: &str, arity: u8) -> (r: Self)
        ensures
            r.module@ == module@,
            r.function@ == function@,
            r.arity == arity,
            r.reason is None,
    {
        UndefinedFunctionError {
            module: String::from_str(module),
            function: String::from_str(function),
            arity,
            reason: None,
        }
    }

    pub fn with_reason(module: &str, function: &str, arity: u8, reason: &str) -> (r: Self)
        ensures
            r.module@ == module@,
            r.function@ == function@,
            r.arity == arity,
            r.reason matches Some(s) && s@ == reason@,
    {
        UndefinedFunctionError {
            module: String::from_str(module),
            function: String::from_str(function),
            arity,
            reason: Some(String::from_str(reason)),
        }
    }

    /// The error held by an `UndefinedFunctionError` struct whose module and
    /// function are atoms and whose arity is an integer.
    pub fn from_term(term: &Term) -> (r: Option<Self>)
        ensures
            match undefined_function_of_term(term@) {
                Some((m, f, a, reason)) => r matches Some(e) && e.module@ == m && e.function@ == f
                    && e.arity == a && opt_text(e.reason) == reason,
                None => r is None,
            },
    {
        if !term.is_struct_of("Elixir.UndefinedFunctionError") {
            return None;
        }
        let module_name = match term.map_get("module") {
            Some(m) => match m.atom_name() {
                Some(n) => n,
                None => {
                    return None;
                },
            },
            None => {
                return None;
            },
        };
        let module = without_elixir_prefix(module_name.as_str());
        let function = match term.map_get("function") {
            Some(f) => match f.atom_name() {
                Some(n) => n.clone(),
                None => {
                    return None;
                },
            },
            None => {
                return None;
            },
        };
        let arity = match term.integer_field("arity") {
            Some(a) => a as u8,
            None => {
                return None;
            },
        };
        let reason = match term.map_get("reason") {
            Some(v) => v.as_erlang_string(),
            None => None,
        };
        Some(UndefinedFunctionError { module, function, arity, reason })
    }
}

impl ElixirExceptionExt for UndefinedFunctionError {
    fn module_name() -> (r: &'static str)
        ensures
            r@ == "Elixir.UndefinedFunctionError"@,
    {
        "Elixir.UndefinedFunctionError"
    }

    fn to_term(&self) -> (r: Term)
        ensures
            r@ == undefined_function_term(
                self.module@,
                self.function@,
                self.arity,
                opt_text(self.reason),
            ),
    {
        let mut entries = exception_entries("Elixir.UndefinedFunctionError");
        let module_atom = with_elixir_prefix(self.module.as_str());
        push_entry(&mut entries, "module", Term::atom(module_atom.as_str()));
        push_entry(&mut entries, "function", Term::atom(self.function.as_str()));
        push_entry(&mut entries, "arity", Term::Integer(self.arity as i64));
        push_entry(&mut entries, "reason", text_or_nil_term(&self.reason));
        assert(Term::pair_values(entries@) =~= undefined_function_term(
            self.module@,
            self.function@,
            self.arity,
            opt_text(self.reason),
        )->ErlMap_0);
        let r = term::erl_map(entries);
        assert(r@ == undefined_function_term(
            self.module@,
            self.function@,
            self.arity,
            opt_text(self.reason),
        ));
        r
    }
}

/// `FunctionClauseError`: no clause of a function matched its arguments.
#[derive(Debug)]
pub struct FunctionClauseError {
    pub module: Option<String>,
    pub function: Option<String>,
    pub arity: Option<u8>,
    pub args: Option<Term>,
}

pub open spec fn opt_term(t: Option<Term>) -> Option<TermV> {
    match t {
        Some(x) => Some(x@),
        None => None,
    }
}

/// An optional value, `nil` when absent.
pub open spec fn or_nil(v: Option<TermV>) -> TermV {
    match v {
        Some(x) => x,
        None => TermV::Atom("nil"@),
    }
}

/// The struct term of a function-clause error: absent parts are `nil`, a
/// module is an atom with the `Elixir.` prefix.
pub open spec fn function_clause_term(
    module: Option<Seq<char>>,
    function: Option<Seq<char>>,
    arity: Option<u8>,
    args: Option<TermV>,
) -> TermV {
    TermV::ErlMap(
        exception_base("Elixir.FunctionClauseError"@) + seq![
            (TermV::Atom("module"@), match module {
                Some(m) => TermV::Atom(elixir_module(m)),
                None => TermV::Atom("nil"@),
            }),
            (TermV::Atom("function"@), match function {
                Some(f) => TermV::Atom(f),
                None => TermV::Atom("nil"@),
            }),
            (TermV::Atom("arity"@), match arity {
                Some(a) => TermV::Integer(a as i64),
                None => TermV::Atom("nil"@),
            }),
            (TermV::Atom("args"@), or_nil(args)),
        ],
    )
}

/// The parts a `FunctionClauseError` struct holds: each is absent unless it
/// has the right kind (atoms for module and function, an integer arity, any
/// arguments but `nil`).
pub open spec fn function_clause_of_term(t: TermV) -> Option<
    (Option<Seq<char>>, Option<Seq<char>>, Option<u8>, Option<TermV>),
> {
    if term::struct_module(t) != Some("Elixir.FunctionClauseError"@) {
        None
    } else {
        Some(
            (
                match atom_name_of(term::map_value(t, "module"@)) {
                    Some(m) => Some(strip_elixir(m)),
                    None => None,
                },
                atom_name_of(term::map_value(t, "function"@)),
                match term::integer_field_of(t, "arity"@) {
                    Some(a) => Some(a as u8),
                    None => None,
                },
                match term::map_value(t, "args"@) {
                    Some(a) => if a == TermV::Atom("nil"@) {
                        None
                    } else {
                        Some(a)
                    },
                    None => None,
                },
            ),
        )
    }
}

impl FunctionClauseError {
    pub fn new(module: &str, function: &str, arity: u8, args: Term) -> (r: Self)
        ensures
            r.module matches Some(m) && m@ == module@,
            r.function matches Some(f) && f@ == function@,
            r.arity == Some(arity),
            r.args == Some(args),
    {
        FunctionClauseError {
            module: Some(String::from_str(module)),
            function: Some(String::from_str(function)),
            arity: Some(arity),
            args: Some(args),
        }
    }

    /// An error with no parts.
    pub fn empty() -> (r: Self)
        ensures
            r.module is None,
            r.function is None,
            r.arity is None,
            r.args is None,
    {
        FunctionClauseError { module: None, function: None, arity: None, args: None }
    }

    /// The error held by a `FunctionClauseError` struct.
    pub fn from_term(term: &Term) -> (r: Option<Self>)
        ensures
            match function_clause_of_term(term@) {
                Some((m, f, a, args)) => r matches Some(e) && opt_text(e.module) == m && opt_text(
                    e.function,
                ) == f && e.arity == a && opt_term(e.args) == args,
                None => r is None,
            },
    {
        if !term.is_struct_of("Elixir.FunctionClauseError") {
            return None;
        }
        let module = match term.map_get("module") {
            Some(m) => match m.atom_name() {
                Some(n) => Some(without_elixir_prefix(n.as_str())),
                None => None,
            },
            None => None,
        };
        let function = match term.map_get("function") {
            Some(f) => match f.atom_name() {
                Some(n) => Some(n.clone()),
                None => None,
            },
            None => None,
        };
        let arity = match term.integer_field("arity") {
            Some(a) => Some(a as u8),
            None => None,
        };
        let args = match term.map_get("args") {
            Some(a) => if a.is_atom_with_name("nil") {
                None
            } else {
                Some(a.duplicate())
            },
            None => None,
        };
        Some(FunctionClauseError { module, function, arity, args })
    }
}

impl ElixirExceptionExt for FunctionClauseError {
    fn module_name() -> (r: &'static str)
        ensures
            r@ == "Elixir.FunctionClauseError"@,
    {
        "Elixir.FunctionClauseError"
    }

    fn to_term(&self) -> (r: Term)
        ensures
            r@ == function_clause_term(
                opt_text(self.module),
                opt_text(self.function),
                self.arity,
                opt_term(self.args),
            ),
    {
        let mut entries = exception_entries("Elixir.FunctionClauseError");
        let module = match &self.module {
            Some(m) => {
                let full = with_elixir_prefix(m.as_str());
                Term::atom(full.as_str())
            },
            None => Term::elixir_nil(),
        };
        push_entry(&mut entries, "module", module);
        let function = match &self.function {
            Some(f) => Term::atom(f.as_str()),
            None => Term::elixir_nil(),
        };
        push_entry(&mut entries, "function", function);
        let arity = match self.arity {
            Some(a) => Term::Integer(a as i64),
            None => Term::elixir_nil(),
        };
        push_entry(&mut entries, "arity", arity);
        let args = match &self.args {
            Some(a) => a.duplicate(),
            None => Term::elixir_nil(),
        };
        push_entry(&mut entries, "args", args);
        assert(Term::pair_values(entries@) =~= function_clause_term(
            opt_text(self.module),
            opt_text(self.function),
            self.arity,
            opt_term(self.args),
        )->ErlMap_0);
        let r = term::erl_map(entries);
        assert(r@ == function_clause_term(
            opt_text(self.module),
            opt_text(self.function),
            self.arity,
            opt_term(self.args),
        ));
        r
    }
}

/// Text written as a UTF-8 binary reads back as the same text.
proof fn lemma_text_roundtrip(m: Seq<char>)
    ensures
        term::erlang_string(TermV::Binary(utf8::encode_utf8(m))) == Some(m),
{
    utf8::encode_utf8_valid_utf8(m);
    utf8::encode_utf8_decode_utf8(m);
}

/// An optional text written as a binary or `nil` reads back as itself.
proof fn lemma_text_or_nil_roundtrip(m: Option<Seq<char>>)
    ensures
        term::erlang_string(text_or_nil(m)) == m,
{
    if let Some(t) = m {
        lemma_text_roundtrip(t);
    }
}

proof fn lemma_key_lengths()
    ensures
        "__struct__"@.len() == 10,
        "__exception__"@.len() == 13,
        "message"@.len() == 7,
        "term"@.len() == 4,
        "key"@.len() == 3,
        "module"@.len() == 6,
        "function"@.len() == 8,
        "arity"@.len() == 5,
        "reason"@.len() == 6,
        "args"@.len() == 4,
        "module"@[0] == 'm',
        "reason"@[0] == 'r',
        "term"@[0] == 't',
        "args"@[0] == 'a',
{
    reveal_strlit("__struct__");
    reveal_strlit("__exception__");
    reveal_strlit("message");
    reveal_strlit("term");
    reveal_strlit("key");
    reveal_strlit("module");
    reveal_strlit("function");
    reveal_strlit("arity");
    reveal_strlit("reason");
    reveal_strlit("args");
}

/// Reading back an exception written with a message gives the message.
pub proof fn lemma_message_exception_roundtrip(module: Seq<char>, message: Seq<char>)
    ensures
        message_of_exception(message_exception_term(module, message), module) == Some(message),
{
    lemma_key_lengths();
    lemma_text_roundtrip(message);
    reveal_with_fuel(term::lookup_atom_key, 4);
}

/// Reading back an exception written with a `term` gives the term.
pub proof fn lemma_term_exception_roundtrip(module: Seq<char>, value: TermV)
    ensures
        term_of_exception(term_exception_term(module, value), module) == Some(value),
{
    lemma_key_lengths();
    reveal_with_fuel(term::lookup_atom_key, 4);
}

/// Reading back a key error gives its key, container and message.
pub proof fn lemma_key_error_roundtrip(key: TermV, container: TermV, message: Option<Seq<char>>)
    ensures
        key_error_of_term(key_error_term(key, container, message)) == Some(
            (key, container, message),
        ),
{
    lemma_key_lengths();
    lemma_text_or_nil_roundtrip(message);
    reveal_with_fuel(term::lookup_atom_key, 6);
}

/// `Elixir.` put in front of a name without it comes off again.
proof fn lemma_prefix_roundtrip(m: Seq<char>)
    requires
        !has_elixir_prefix(m),
    ensures
        strip_elixir(elixir_module(m)) == m,
{
    reveal_strlit("Elixir.");
    let full = "Elixir."@ + m;
    assert(full.subrange(0, 7) =~= "Elixir."@);
    assert(full.subrange(7, full.len() as int) =~= m);
}

/// Reading back an undefined-function error gives its parts, for a module
/// named without the `Elixir.` prefix (a prefixed name reads back without it).
pub proof fn lemma_undefined_function_roundtrip(
    module: Seq<char>,
    function: Seq<char>,
    arity: u8,
    reason: Option<Seq<char>>,
)
    requires
        !has_elixir_prefix(module),
    ensures
        undefined_function_of_term(undefined_function_term(module, function, arity, reason))
            == Some((module, function, arity, reason)),
{
    lemma_key_lengths();
    lemma_text_or_nil_roundtrip(reason);
    lemma_prefix_roundtrip(module);
    reveal_with_fuel(term::lookup_atom_key, 7);
}

/// Reading back a function-clause error gives its parts, for a module named
/// without the `Elixir.` prefix, a function name, and arguments other than
/// `nil` (an absent module or function is written as `nil`, which reads back
/// as the name "nil").
pub proof fn lemma_function_clause_roundtrip(
    module: Option<Seq<char>>,
    function: Option<Seq<char>>,
    arity: Option<u8>,
    args: Option<TermV>,
)
    requires
        module matches Some(m) && !has_elixir_prefix(m),
        function is Some,
        args != Some(TermV::Atom("nil"@)),
    ensures
        function_clause_of_term(function_clause_term(module, function, arity, args)) == Some(
            (module, function, arity, args),
        ),
{
    lemma_key_lengths();
    if let Some(m) = module {
        lemma_prefix_roundtrip(m);
    }
    reveal_with_fuel(term::lookup_atom_key, 7);
}

} // verus!
