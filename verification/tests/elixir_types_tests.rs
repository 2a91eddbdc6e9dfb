use edp::builders::{AtomKeyMapBuilder, KeywordListBuilder};
use edp::date_time::{ElixirDate, ElixirDateTime, ElixirNaiveDateTime, ElixirTime};
use edp::exceptions::{
    ArgumentError, ElixirExceptionExt, KeyError, MatchError, RuntimeError, UndefinedFunctionError,
};
use edp::gen_server_terms::GenServerTerms;
use edp::range::ElixirRange;
use edp::term::{Pid, Term};

/// Values that stand for a term, as the builders take them.
trait IntoTerm {
    fn into_term(self) -> Term;
}

impl IntoTerm for Term {
    fn into_term(self) -> Term {
        self
    }
}

impl IntoTerm for &str {
    fn into_term(self) -> Term {
        Term::Str(self.to_string())
    }
}

impl IntoTerm for i64 {
    fn into_term(self) -> Term {
        Term::Integer(self)
    }
}

impl IntoTerm for i32 {
    fn into_term(self) -> Term {
        Term::Integer(self as i64)
    }
}

impl IntoTerm for bool {
    fn into_term(self) -> Term {
        Term::boolean(self)
    }
}

fn t<V: IntoTerm>(v: V) -> Term {
    v.into_term()
}

fn opt<V: IntoTerm>(v: Option<V>) -> Option<Term> {
    v.map(IntoTerm::into_term)
}

fn pairs<V: IntoTerm>(v: Vec<(&'static str, V)>) -> Vec<(&'static str, Term)> {
    v.into_iter().map(|(k, x)| (k, x.into_term())).collect()
}

fn collect_range(range: ElixirRange) -> Vec<i64> {
    let mut it = range.into_iter();
    let mut out = Vec::new();
    while let Some(v) = it.next() {
        out.push(v);
    }
    out
}

fn same<A: std::fmt::Debug, B: std::fmt::Debug>(a: A, b: B) -> bool {
    format!("{:?}", a) == format!("{:?}", b)
}

/// Questions asked of terms in these tests.
trait TermInfo {
    fn len(&self) -> usize;
    fn is_map(&self) -> bool;
    fn is_proplist(&self) -> bool;
    fn is_elixir_struct(&self) -> bool;
    fn is_elixir_exception(&self) -> bool;
    fn as_ok_tuple(&self) -> Option<&Term>;
}

impl TermInfo for Term {
    fn len(&self) -> usize {
        match self {
            Term::List(v) | Term::Tuple(v) => v.len(),
            Term::ErlMap(m) => m.len(),
            Term::Binary(b) => b.len(),
            Term::Str(s) => s.len(),
            _ => 0,
        }
    }

    fn is_map(&self) -> bool {
        matches!(self, Term::ErlMap(_))
    }

    fn is_proplist(&self) -> bool {
        match self {
            Term::List(es) => es.iter().all(|e| match e {
                Term::Tuple(p) if p.len() == 2 => {
                    matches!(&p[0], Term::Atom(_) | Term::Binary(_) | Term::Str(_))
                }
                Term::Atom(_) => true,
                _ => false,
            }),
            Term::Nil => true,
            _ => false,
        }
    }

    fn is_elixir_struct(&self) -> bool {
        self.elixir_struct_module().is_some()
    }

    fn is_elixir_exception(&self) -> bool {
        self.map_get("__struct__").is_some()
            && self
                .map_get("__exception__")
                .is_some_and(|v| v.is_atom_with_name("true"))
    }

    fn as_ok_tuple(&self) -> Option<&Term> {
        match self.as_2_tuple() {
            Some((first, value)) if first.is_atom_with_name("ok") => Some(value),
            _ => None,
        }
    }
}

#[test]
fn keyword_list_basic() {
    let kw = KeywordListBuilder::new()
        .put("name", t("Alice"))
        .put("age", t(30i64))
        .put("active", t(true))
        .build();

    assert!(kw.is_proplist());
    assert_eq!(kw.len(), 3);
}

#[test]
fn keyword_list_with_flags() {
    let kw = KeywordListBuilder::new()
        .put_flag("verbose")
        .put_flag("debug")
        .build();

    assert!(kw.is_proplist());
    assert_eq!(kw.len(), 2);
}

#[test]
fn atom_key_map_basic() {
    let map = AtomKeyMapBuilder::new()
        .insert("name", t("Bob"))
        .insert("count", t(42i64))
        .build();

    assert!(map.is_map());
    assert_eq!(map.len(), 2);
}

#[test]
fn atom_key_map_as_struct() {
    let map = AtomKeyMapBuilder::new()
        .insert("name", t("Charlie"))
        .insert("email", t("charlie@example.com"))
        .build_struct("MyApp.User");

    assert!(map.is_elixir_struct());
    assert_eq!(map.elixir_struct_module().map(|s| s.as_str()), Some("Elixir.MyApp.User"));
}

#[test]
fn conditional_insert() {
    let include_debug = false;
    let map = AtomKeyMapBuilder::new()
        .insert("name", t("test"))
        .insert_if(include_debug, "debug", t(true))
        .build();

    assert_eq!(map.len(), 1);
}

#[test]
fn optional_insert() {
    let maybe_value: Option<i64> = Some(42);
    let no_value: Option<i64> = None;

    let map = AtomKeyMapBuilder::new()
        .insert_some("present", opt(maybe_value))
        .insert_some("absent", opt(no_value))
        .build();

    assert_eq!(map.len(), 1);
}

#[test]
fn ascending_range() {
    let range = ElixirRange::ascending(1, 5);
    assert_eq!(range.len(), 5);
    assert!(range.contains(1));
    assert!(range.contains(3));
    assert!(range.contains(5));
    assert!(!range.contains(0));
    assert!(!range.contains(6));
}

#[test]
fn descending_range() {
    let range = ElixirRange::descending(5, 1);
    assert_eq!(range.len(), 5);
    assert!(range.contains(5));
    assert!(range.contains(3));
    assert!(range.contains(1));
}

#[test]
fn range_with_step() {
    let range = ElixirRange::new(1, 10, 2);
    assert_eq!(range.len(), 5);
    assert!(range.contains(1));
    assert!(range.contains(3));
    assert!(range.contains(5));
    assert!(!range.contains(2));
    assert!(!range.contains(4));
}

#[test]
fn empty_range() {
    let range = ElixirRange::new(10, 1, 1);
    assert!(range.is_empty());
    assert_eq!(range.len(), 0);
}

#[test]
fn range_iterator() {
    let range = ElixirRange::new(1, 5, 2);
    let values: Vec<i64> = collect_range(range);
    assert_eq!(values, vec![1, 3, 5]);
}

#[test]
fn range_to_term_roundtrip() {
    let range = ElixirRange::new(1, 10, 1);
    let term: Term = range.to_term();

    assert!(term.is_elixir_struct());
    assert_eq!(term.elixir_struct_module().map(|s| s.as_str()), Some("Elixir.Range"));

    let parsed = ElixirRange::from_term(&term).unwrap();
    assert_eq!(parsed.first, 1);
    assert_eq!(parsed.last, 10);
    assert_eq!(parsed.step, 1);
}

#[test]
fn descending_range_iterator() {
    let range = ElixirRange::descending(5, 1);
    let values: Vec<i64> = collect_range(range);
    assert_eq!(values, vec![5, 4, 3, 2, 1]);
}

#[test]
fn range_iterator_with_step() {
    let range = ElixirRange::new(0, 10, 3);
    let values: Vec<i64> = collect_range(range);
    assert_eq!(values, vec![0, 3, 6, 9]);
}

#[test]
fn range_iterator_size_hint() {
    let range = ElixirRange::ascending(1, 5);
    let mut iter = range.into_iter();

    assert_eq!(iter.size_hint().0, 5);
    iter.next();
    assert_eq!(iter.size_hint().0, 4);
    iter.next();
    iter.next();
    assert_eq!(iter.size_hint().0, 2);
}

#[test]
fn range_with_zero_step() {
    let range = ElixirRange::new(1, 10, 0);
    assert!(range.is_empty());
    assert_eq!(range.len(), 0);
}

#[test]
fn date_roundtrip() {
    let date = ElixirDate::new(2025, 12, 25);
    let term: Term = date.to_term();

    assert!(term.is_elixir_struct());
    assert_eq!(term.elixir_struct_module().map(|s| s.as_str()), Some("Elixir.Date"));

    let parsed = ElixirDate::from_term(&term).unwrap();
    assert_eq!(parsed.year, 2025);
    assert_eq!(parsed.month, 12);
    assert_eq!(parsed.day, 25);
}

#[test]
fn time_roundtrip() {
    let time = ElixirTime::new(14, 30, 45, 123456, 6);
    let term: Term = time.to_term();

    assert!(term.is_elixir_struct());
    assert_eq!(term.elixir_struct_module().map(|s| s.as_str()), Some("Elixir.Time"));

    let parsed = ElixirTime::from_term(&term).unwrap();
    assert_eq!(parsed.hour, 14);
    assert_eq!(parsed.minute, 30);
    assert_eq!(parsed.second, 45);
    assert_eq!(parsed.microsecond_value, 123456);
    assert_eq!(parsed.microsecond_precision, 6);
}

#[test]
fn datetime_utc_roundtrip() {
    let dt = ElixirDateTime::utc(2025, 12, 25, 14, 30, 0, 0, 0);
    let term: Term = dt.to_term();

    assert!(term.is_elixir_struct());
    assert_eq!(term.elixir_struct_module().map(|s| s.as_str()), Some("Elixir.DateTime"));

    let parsed = ElixirDateTime::from_term(&term).unwrap();
    assert_eq!(parsed.year, 2025);
    assert_eq!(parsed.month, 12);
    assert_eq!(parsed.day, 25);
    assert_eq!(parsed.time_zone, "Etc/UTC");
}

#[test]
fn date_display() {
    let date = ElixirDate::new(2025, 1, 5);
    assert_eq!(date.to_string(), "~D[2025-01-05]");
}

#[test]
fn time_display() {
    let time = ElixirTime::hms(9, 5, 3);
    assert_eq!(time.to_string(), "~T[09:05:03]");

    let time_with_ms = ElixirTime::new(14, 30, 0, 123000, 3);
    assert_eq!(time_with_ms.to_string(), "~T[14:30:00.123]");
}

#[test]
fn naive_datetime_roundtrip() {
    let date = ElixirDate::new(2025, 12, 25);
    let time = ElixirTime::new(14, 30, 45, 0, 0);
    let ndt = ElixirNaiveDateTime::from_date_time(date, time);
    let term: Term = ndt.to_term();

    assert!(term.is_elixir_struct());
    assert_eq!(term.elixir_struct_module().map(|s| s.as_str()), Some("Elixir.NaiveDateTime"));

    let parsed = ElixirNaiveDateTime::from_term(&term).unwrap();
    assert_eq!(parsed.year, 2025);
    assert_eq!(parsed.month, 12);
    assert_eq!(parsed.day, 25);
    assert_eq!(parsed.hour, 14);
    assert_eq!(parsed.minute, 30);
    assert_eq!(parsed.second, 45);
}

#[test]
fn argument_error_roundtrip() {
    let err = ArgumentError::new("invalid argument");
    let term = err.to_term();

    assert!(term.is_elixir_exception());
    assert_eq!(term.elixir_struct_module().map(|s| s.as_str()), Some("Elixir.ArgumentError"));

    let parsed = ArgumentError::from_term(&term).unwrap();
    assert_eq!(parsed.message, "invalid argument");
}

#[test]
fn runtime_error_roundtrip() {
    let err = RuntimeError::new("something went wrong");
    let term = err.to_term();

    assert!(term.is_elixir_exception());
    assert_eq!(term.elixir_struct_module().map(|s| s.as_str()), Some("Elixir.RuntimeError"));

    let parsed = RuntimeError::from_term(&term).unwrap();
    assert_eq!(parsed.message, "something went wrong");
}

#[test]
fn key_error_roundtrip() {
    let err = KeyError::new(
        Term::atom("missing_key"),
        Term::ErlMap(vec![]),
    );
    let term = err.to_term();

    assert!(term.is_elixir_exception());
    assert_eq!(term.elixir_struct_module().map(|s| s.as_str()), Some("Elixir.KeyError"));

    let parsed = KeyError::from_term(&term).unwrap();
    assert!(parsed.key.is_atom_with_name("missing_key"));
}

#[test]
fn key_error_with_message() {
    let err = KeyError::with_message(
        Term::atom("name"),
        Term::ErlMap(vec![]),
        "key :name not found",
    );
    let term = err.to_term();
    let parsed = KeyError::from_term(&term).unwrap();

    assert_eq!(parsed.message, Some("key :name not found".to_string()));
}

#[test]
fn match_error_roundtrip() {
    let err = MatchError::new(Term::Integer(42));
    let term = err.to_term();

    assert!(term.is_elixir_exception());
    assert_eq!(term.elixir_struct_module().map(|s| s.as_str()), Some("Elixir.MatchError"));

    let parsed = MatchError::from_term(&term).unwrap();
    assert!(same(&parsed.term, &Term::Integer(42)));
}

#[test]
fn undefined_function_error_roundtrip() {
    let err = UndefinedFunctionError::new("MyModule", "my_function", 2);
    let term = err.to_term();

    assert!(term.is_elixir_exception());
    assert_eq!(
        term.elixir_struct_module().map(|s| s.as_str()),
        Some("Elixir.UndefinedFunctionError")
    );

    let parsed = UndefinedFunctionError::from_term(&term).unwrap();
    assert_eq!(parsed.module, "MyModule");
    assert_eq!(parsed.function, "my_function");
    assert_eq!(parsed.arity, 2);
}

fn test_pid() -> Pid {
    Pid {
        node: "test@localhost".to_string(),
        id: 0,
        serial: 0,
        creation: 0,
        local_ext_bytes: None,
    }
}

#[test]
fn gen_call_message() {
    let from_pid = Term::Pid(test_pid());
    let from_ref = Term::atom("ref");
    let request = Term::atom("get_state");

    let msg = GenServerTerms::gen_call(from_pid, from_ref, request);
    assert!(GenServerTerms::is_gen_call(&msg));
}

#[test]
fn gen_cast_message() {
    let request = Term::atom("do_something");
    let msg = GenServerTerms::gen_cast(request);
    assert!(GenServerTerms::is_gen_cast(&msg));
}

#[test]
fn genserver_reply() {
    let reply = GenServerTerms::reply(Term::atom("ok"), Term::atom("state"));
    assert!(GenServerTerms::is_reply(&reply));
}

#[test]
fn genserver_noreply() {
    let noreply = GenServerTerms::noreply(Term::atom("state"));
    assert!(GenServerTerms::is_noreply(&noreply));
}

#[test]
fn genserver_stop() {
    let stop = GenServerTerms::stop_normal(Term::atom("state"));
    assert!(GenServerTerms::is_stop(&stop));
}

#[test]
fn init_responses() {
    let ok = GenServerTerms::init_ok(Term::atom("initial_state"));
    assert!(ok.as_ok_tuple().is_some());

    let ignore = GenServerTerms::init_ignore();
    assert!(ignore.is_atom_with_name("ignore"));

    let stop = GenServerTerms::init_stop(Term::atom("reason"));
    assert!(
        stop.as_2_tuple()
            .is_some_and(|(f, _)| f.is_atom_with_name("stop"))
    );
}

#[test]
fn parse_gen_call() {
    let from_pid = Term::Pid(test_pid());
    let from_ref = Term::atom("ref");
    let request = Term::atom("ping");

    let msg = GenServerTerms::gen_call(from_pid, from_ref, request);
    let (from, req) = GenServerTerms::parse_gen_call(&msg).unwrap();

    assert!(from.as_2_tuple().is_some());
    assert!(req.is_atom_with_name("ping"));
}

#[test]
fn genserver_reply_with_timeout() {
    let reply = GenServerTerms::reply_with_timeout(Term::atom("ok"), Term::atom("state"), 5000);
    assert!(GenServerTerms::is_reply(&reply));
    assert_eq!(reply.len(), 4);
}

#[test]
fn genserver_reply_hibernate() {
    let reply = GenServerTerms::reply_hibernate(Term::atom("ok"), Term::atom("state"));
    assert!(GenServerTerms::is_reply(&reply));
}

#[test]
fn genserver_noreply_with_timeout() {
    let noreply = GenServerTerms::noreply_with_timeout(Term::atom("state"), 1000);
    assert!(GenServerTerms::is_noreply(&noreply));
}

#[test]
fn genserver_stop_with_reply() {
    let stop = GenServerTerms::stop_with_reply(
        Term::atom("normal"),
        Term::atom("ok"),
        Term::atom("state"),
    );
    assert!(GenServerTerms::is_stop(&stop));
    assert_eq!(stop.len(), 4);
}

#[test]
fn parse_gen_cast() {
    let request = Term::atom("async_request");
    let msg = GenServerTerms::gen_cast(request);

    let req = GenServerTerms::parse_gen_cast(&msg).unwrap();
    assert!(req.is_atom_with_name("async_request"));
}

#[test]
fn parse_gen_call_from() {
    let from_pid = Term::Pid(test_pid());
    let from_ref = Term::atom("ref123");
    let request = Term::atom("get_status");

    let msg = GenServerTerms::gen_call(from_pid, from_ref, request);
    let (from, _) = GenServerTerms::parse_gen_call(&msg).unwrap();
    let (pid, ref_term) = GenServerTerms::parse_from(from).unwrap();

    assert!(pid.node.as_str().contains("test@localhost"));
    assert!(ref_term.is_atom_with_name("ref123"));
}

#[test]
fn date_validation_rejects_invalid() {
    assert!(ElixirDate::try_new(2025, 0, 15).is_none());
    assert!(ElixirDate::try_new(2025, 13, 15).is_none());
    assert!(ElixirDate::try_new(2025, 2, 30).is_none());
    assert!(ElixirDate::try_new(2025, 4, 31).is_none());
    assert!(ElixirDate::try_new(2025, 1, 0).is_none());
}

#[test]
fn date_validation_accepts_valid() {
    assert!(ElixirDate::try_new(2025, 1, 31).is_some());
    assert!(ElixirDate::try_new(2025, 2, 28).is_some());
    assert!(ElixirDate::try_new(2024, 2, 29).is_some()); // Leap year
    assert!(ElixirDate::try_new(2025, 2, 29).is_none()); // Not a leap year
}

#[test]
fn time_validation_rejects_invalid() {
    assert!(ElixirTime::try_new(24, 0, 0, 0, 0).is_none());
    assert!(ElixirTime::try_new(0, 60, 0, 0, 0).is_none());
    assert!(ElixirTime::try_new(0, 0, 60, 0, 0).is_none());
    assert!(ElixirTime::try_new(0, 0, 0, 1_000_000, 0).is_none());
    assert!(ElixirTime::try_new(0, 0, 0, 0, 7).is_none());
}

#[test]
fn leap_year_century_rules() {
    assert!(!ElixirDate::is_leap_year(1900)); // Divisible by 100, not 400
    assert!(ElixirDate::is_leap_year(2000)); // Divisible by 400
    assert!(!ElixirDate::is_leap_year(2100)); // Divisible by 100, not 400
    assert!(ElixirDate::is_leap_year(2400)); // Divisible by 400
}

#[test]
fn naive_datetime_validation() {
    assert!(ElixirNaiveDateTime::try_new(2025, 2, 29, 12, 0, 0, 0, 0).is_none());
    assert!(ElixirNaiveDateTime::try_new(2024, 2, 29, 12, 0, 0, 0, 0).is_some());
    assert!(ElixirNaiveDateTime::try_new(2025, 1, 15, 25, 0, 0, 0, 0).is_none());
}

#[test]
fn datetime_utc_validation() {
    assert!(ElixirDateTime::try_utc(2025, 13, 1, 0, 0, 0, 0, 0).is_none());
    assert!(ElixirDateTime::try_utc(2025, 6, 15, 12, 30, 0, 0, 0).is_some());
}

#[test]
fn try_hms_validation() {
    assert!(ElixirTime::try_hms(23, 59, 59).is_some());
    assert!(ElixirTime::try_hms(24, 0, 0).is_none());
}

#[test]
fn descending_range_contains() {
    let range = ElixirRange::descending(10, 5);
    assert!(range.contains(10));
    assert!(range.contains(7));
    assert!(range.contains(5));
    assert!(!range.contains(4));
    assert!(!range.contains(11));
}

#[test]
fn range_contains_with_step() {
    let range = ElixirRange::new(0, 20, 5);
    assert!(range.contains(0));
    assert!(range.contains(5));
    assert!(range.contains(10));
    assert!(range.contains(15));
    assert!(range.contains(20));
    assert!(!range.contains(3));
    assert!(!range.contains(7));
}

#[test]
fn genserver_noreply_hibernate() {
    let noreply = GenServerTerms::noreply_hibernate(Term::atom("state"));
    assert!(GenServerTerms::is_noreply(&noreply));
    assert_eq!(noreply.len(), 3);
}

#[test]
fn genserver_init_ok_with_timeout() {
    let init = GenServerTerms::init_ok_with_timeout(Term::atom("state"), 5000);
    assert!(init.as_tuple().is_some());
    assert_eq!(init.len(), 3);
}

#[test]
fn genserver_init_ok_hibernate() {
    let init = GenServerTerms::init_ok_hibernate(Term::atom("state"));
    assert!(init.as_tuple().is_some());
    assert_eq!(init.len(), 3);
}

#[test]
fn keyword_list_put_atom() {
    let kw = KeywordListBuilder::new()
        .put_atom("status", "active")
        .build();
    assert!(kw.is_proplist());
}

#[test]
fn keyword_list_put_term() {
    let kw = KeywordListBuilder::new()
        .put_term("data", Term::List(vec![Term::Integer(1)]))
        .build();
    assert!(kw.is_proplist());
}

#[test]
fn keyword_list_extend() {
    let kw = KeywordListBuilder::new()
        .extend(pairs(vec![("a", 1i64), ("b", 2i64)]))
        .build();
    assert_eq!(kw.len(), 2);
}

#[test]
fn keyword_list_with_capacity() {
    let kw = KeywordListBuilder::with_capacity(10).put("x", t(1i64)).build();
    assert_eq!(kw.len(), 1);
}

#[test]
fn atom_key_map_insert_atom() {
    let map = AtomKeyMapBuilder::new()
        .insert_atom("status", "pending")
        .build();
    assert!(map.is_map());
}

#[test]
fn atom_key_map_insert_term() {
    let map = AtomKeyMapBuilder::new()
        .insert_term("list", Term::List(vec![]))
        .build();
    assert!(map.is_map());
}

#[test]
fn atom_key_map_extend() {
    let map = AtomKeyMapBuilder::new()
        .extend(pairs(vec![("x", 1i64), ("y", 2i64)]))
        .build();
    assert_eq!(map.len(), 2);
}

#[test]
fn keyword_list_is_empty() {
    let builder = KeywordListBuilder::new();
    assert!(builder.is_empty());

    let builder = builder.put("key", t(1i64));
    assert!(!builder.is_empty());
}

#[test]
fn keyword_list_put_if() {
    let kw = KeywordListBuilder::new()
        .put_if(true, "included", t(1i64))
        .put_if(false, "excluded", t(2i64))
        .build();
    assert_eq!(kw.len(), 1);
}

#[test]
fn atom_key_map_is_empty() {
    let builder = AtomKeyMapBuilder::new();
    assert!(builder.is_empty());

    let builder = builder.insert("key", t(1i64));
    assert!(!builder.is_empty());
}

#[test]
fn datetime_with_timezone() {
    let dt = ElixirDateTime::with_timezone(
        2025,
        6,
        15,
        10,
        30,
        0,
        0,
        0,
        "America/New_York",
        "EDT",
        -18000,
        3600,
    );
    assert_eq!(dt.time_zone, "America/New_York");
    assert_eq!(dt.zone_abbr, "EDT");
    assert_eq!(dt.utc_offset, -18000);
    assert_eq!(dt.std_offset, 3600);
}

#[test]
fn undefined_function_error_with_reason() {
    let err = UndefinedFunctionError::with_reason("Enum", "map", 2, "function not exported");
    let term = err.to_term();
    let parsed = UndefinedFunctionError::from_term(&term).unwrap();
    assert_eq!(parsed.reason, Some("function not exported".to_string()));
}

#[test]
fn single_element_range() {
    let range = ElixirRange::new(5, 5, 1);
    assert_eq!(range.len(), 1);
    assert!(range.contains(5));
    let values: Vec<i64> = collect_range(range);
    assert_eq!(values, vec![5]);
}

#[test]
fn negative_step_range() {
    let range = ElixirRange::new(10, 0, -2);
    assert_eq!(range.len(), 6);
    let values: Vec<i64> = collect_range(range);
    assert_eq!(values, vec![10, 8, 6, 4, 2, 0]);
}

#[test]
fn range_display() {
    let range = ElixirRange::ascending(1, 10);
    assert_eq!(range.to_string(), "1..10");

    let stepped = ElixirRange::new(1, 10, 2);
    assert_eq!(stepped.to_string(), "1..10//2");
}

#[test]
fn keyword_list_put_some() {
    let present: Option<i64> = Some(42);
    let absent: Option<i64> = None;

    let kw = KeywordListBuilder::new()
        .put_some("present", opt(present))
        .put_some("absent", opt(absent))
        .build();

    assert_eq!(kw.len(), 1);
}

#[test]
fn genserver_stop_shutdown() {
    let stop = GenServerTerms::stop_shutdown(Term::atom("state"));
    assert!(GenServerTerms::is_stop(&stop));
}

#[test]
fn naive_datetime_display() {
    let ndt = ElixirNaiveDateTime::new(2025, 12, 25, 14, 30, 0, 0, 0);
    assert_eq!(ndt.to_string(), "~N[2025-12-25 14:30:00]");

    let ndt_with_ms = ElixirNaiveDateTime::new(2025, 6, 15, 10, 0, 0, 123000, 3);
    assert_eq!(ndt_with_ms.to_string(), "~N[2025-06-15 10:00:00.123]");
}

#[test]
fn datetime_display() {
    let dt = ElixirDateTime::utc(2025, 12, 25, 14, 30, 0, 0, 0);
    assert_eq!(dt.to_string(), "~U[2025-12-25 14:30:00Z]");

    let dt_tz = ElixirDateTime::with_timezone(
        2025,
        6,
        15,
        10,
        30,
        0,
        0,
        0,
        "America/New_York",
        "EDT",
        -18000,
        3600,
    );
    assert_eq!(dt_tz.to_string(), "~U[2025-06-15 10:30:00EDT]");
}

#[test]
fn exception_from_trait() {
    let arg_err = ArgumentError::new("bad argument");
    let term: Term = arg_err.to_term();
    assert!(term.is_elixir_exception());

    let rt_err = RuntimeError::new("runtime error");
    let term: Term = rt_err.to_term();
    assert!(term.is_elixir_exception());

    let match_err = MatchError::new(Term::Integer(42));
    let term: Term = match_err.to_term();
    assert!(term.is_elixir_exception());
}

#[test]
fn range_with_negative_values() {
    let range = ElixirRange::new(-10, -5, 1);
    assert_eq!(range.len(), 6);
    assert!(range.contains(-10));
    assert!(range.contains(-7));
    assert!(range.contains(-5));
    assert!(!range.contains(-4));

    let values: Vec<i64> = collect_range(range);
    assert_eq!(values, vec![-10, -9, -8, -7, -6, -5]);
}

#[test]
fn from_term_rejects_non_struct() {
    let plain_map = Term::ErlMap(vec![]);
    assert!(ElixirDate::from_term(&plain_map).is_none());

    let integer = Term::Integer(42);
    assert!(ElixirRange::from_term(&integer).is_none());
}

#[test]
fn datetime_display_with_microseconds() {
    let dt = ElixirDateTime::utc(2025, 6, 15, 10, 30, 45, 123456, 6);
    assert_eq!(dt.to_string(), "~U[2025-06-15 10:30:45.123456Z]");
}

#[test]
fn key_error_from_trait() {
    let err = KeyError::new(Term::atom("key"), Term::ErlMap(vec![]));
    let term: Term = err.to_term();
    assert!(term.is_elixir_exception());
}

#[test]
fn undefined_function_error_from_trait() {
    let err = UndefinedFunctionError::new("Module", "func", 1);
    let term: Term = err.to_term();
    assert!(term.is_elixir_exception());
}

#[test]
fn naive_datetime_from_date_time() {
    let date = ElixirDate::new(2025, 6, 15);
    let time = ElixirTime::new(10, 30, 45, 500000, 6);
    let ndt = ElixirNaiveDateTime::from_date_time(date, time);

    assert_eq!(ndt.year, 2025);
    assert_eq!(ndt.month, 6);
    assert_eq!(ndt.day, 15);
    assert_eq!(ndt.hour, 10);
    assert_eq!(ndt.minute, 30);
    assert_eq!(ndt.second, 45);
    assert_eq!(ndt.microsecond_value, 500000);
}

#[test]
fn genserver_predicates_negative_cases() {
    let not_gen_call = Term::atom("hello");
    assert!(!GenServerTerms::is_gen_call(&not_gen_call));
    assert!(!GenServerTerms::is_gen_cast(&not_gen_call));
    assert!(!GenServerTerms::is_reply(&not_gen_call));
    assert!(!GenServerTerms::is_noreply(&not_gen_call));
    assert!(!GenServerTerms::is_stop(&not_gen_call));
}

#[test]
fn genserver_parse_negative_cases() {
    let not_gen_call = Term::atom("hello");
    assert!(GenServerTerms::parse_gen_call(&not_gen_call).is_none());
    assert!(GenServerTerms::parse_gen_cast(&not_gen_call).is_none());
    assert!(GenServerTerms::parse_from(&not_gen_call).is_none());
}

#[test]
fn empty_range_iteration() {
    let range = ElixirRange::new(10, 1, 1);
    let values: Vec<i64> = collect_range(range);
    assert!(values.is_empty());
}

#[test]
fn descending_range_display() {
    let range = ElixirRange::descending(10, 1);
    assert_eq!(range.to_string(), "10..1//-1");
}

#[test]
fn exception_module_names() {
    assert_eq!(ArgumentError::module_name(), "Elixir.ArgumentError");
    assert_eq!(RuntimeError::module_name(), "Elixir.RuntimeError");
    assert_eq!(KeyError::module_name(), "Elixir.KeyError");
    assert_eq!(MatchError::module_name(), "Elixir.MatchError");
    assert_eq!(
        UndefinedFunctionError::module_name(),
        "Elixir.UndefinedFunctionError"
    );
}

#[test]
fn datetime_from_term_rejects_wrong_type() {
    let naive_dt: Term = ElixirNaiveDateTime::new(2025, 1, 1, 0, 0, 0, 0, 0).to_term();
    assert!(ElixirDateTime::from_term(&naive_dt).is_none());
}

#[test]
fn naive_datetime_from_term_rejects_wrong_type() {
    let dt: Term = ElixirDateTime::utc(2025, 1, 1, 0, 0, 0, 0, 0).to_term();
    assert!(ElixirNaiveDateTime::from_term(&dt).is_none());
}

#[test]
fn exception_from_term_rejects_wrong_type() {
    let arg_err: Term = ArgumentError::new("test").to_term();
    assert!(RuntimeError::from_term(&arg_err).is_none());
    assert!(KeyError::from_term(&arg_err).is_none());
    assert!(MatchError::from_term(&arg_err).is_none());
    assert!(UndefinedFunctionError::from_term(&arg_err).is_none());
}

#[test]
fn time_display_with_varying_precision() {
    let time_p1 = ElixirTime::new(14, 30, 0, 100000, 1);
    assert_eq!(time_p1.to_string(), "~T[14:30:00.1]");

    let time_p3 = ElixirTime::new(14, 30, 0, 123000, 3);
    assert_eq!(time_p3.to_string(), "~T[14:30:00.123]");

    let time_p6 = ElixirTime::new(14, 30, 0, 123456, 6);
    assert_eq!(time_p6.to_string(), "~T[14:30:00.123456]");
}

#[test]
fn datetime_with_timezone_roundtrip() {
    let dt = ElixirDateTime::with_timezone(
        2025,
        6,
        15,
        10,
        30,
        45,
        123456,
        6,
        "America/New_York",
        "EDT",
        -18000,
        3600,
    );
    let term: Term = dt.to_term();
    let parsed = ElixirDateTime::from_term(&term).unwrap();

    assert_eq!(parsed.year, 2025);
    assert_eq!(parsed.month, 6);
    assert_eq!(parsed.day, 15);
    assert_eq!(parsed.hour, 10);
    assert_eq!(parsed.minute, 30);
    assert_eq!(parsed.second, 45);
    assert_eq!(parsed.microsecond_value, 123456);
    assert_eq!(parsed.time_zone, "America/New_York");
    assert_eq!(parsed.zone_abbr, "EDT");
    assert_eq!(parsed.utc_offset, -18000);
    assert_eq!(parsed.std_offset, 3600);
}

#[test]
fn date_negative_year() {
    let date = ElixirDate::new(-500, 3, 15);
    let term: Term = date.to_term();
    let parsed = ElixirDate::from_term(&term).unwrap();

    assert_eq!(parsed.year, -500);
    assert_eq!(date.to_string(), "~D[-500-03-15]");
}

#[test]
fn date_year_zero() {
    let date = ElixirDate::new(0, 1, 1);
    assert_eq!(date.to_string(), "~D[0000-01-01]");
}

#[test]
fn range_large_values() {
    let range = ElixirRange::new(0, 1_000_000, 1000);
    assert_eq!(range.len(), 1001);
    assert!(range.contains(0));
    assert!(range.contains(1000));
    assert!(range.contains(1_000_000));
    assert!(!range.contains(500));
}

#[test]
fn genserver_stop_custom_reason() {
    let stop = GenServerTerms::stop(Term::atom("killed"), Term::atom("state"));
    assert!(GenServerTerms::is_stop(&stop));
    assert_eq!(stop.len(), 3);
}

#[test]
fn range_iterator_at_boundary() {
    let range = ElixirRange::new(i64::MAX - 2, i64::MAX, 1);
    let values: Vec<i64> = collect_range(range);
    assert_eq!(values, vec![i64::MAX - 2, i64::MAX - 1, i64::MAX]);
}

#[test]
fn range_iterator_at_min_boundary() {
    let range = ElixirRange::new(i64::MIN + 2, i64::MIN, -1);
    let values: Vec<i64> = collect_range(range);
    assert_eq!(values, vec![i64::MIN + 2, i64::MIN + 1, i64::MIN]);
}

#[test]
fn naive_datetime_to_date_time() {
    let ndt = ElixirNaiveDateTime::new(2025, 6, 15, 14, 30, 45, 123456, 6);
    let date = ndt.to_date();
    let time = ndt.to_time();

    assert_eq!(date.year, 2025);
    assert_eq!(date.month, 6);
    assert_eq!(date.day, 15);
    assert_eq!(time.hour, 14);
    assert_eq!(time.minute, 30);
    assert_eq!(time.second, 45);
    assert_eq!(time.microsecond_value, 123456);
}

#[test]
fn datetime_to_naive() {
    let dt = ElixirDateTime::utc(2025, 6, 15, 14, 30, 45, 123456, 6);
    let naive = dt.to_naive();

    assert_eq!(naive.year, 2025);
    assert_eq!(naive.month, 6);
    assert_eq!(naive.day, 15);
    assert_eq!(naive.hour, 14);
    assert_eq!(naive.microsecond_value, 123456);
}

#[test]
fn time_validation_accepts_valid() {
    assert!(ElixirTime::try_new(23, 59, 59, 999_999, 6).is_some());
    assert!(ElixirTime::try_new(0, 0, 0, 0, 0).is_some());
}

#[test]
fn from_term_rejects_wrong_struct_type() {
    let date_term: Term = ElixirDate::new(2025, 1, 1).to_term();
    assert!(ElixirTime::from_term(&date_term).is_none());
    assert!(ElixirRange::from_term(&date_term).is_none());
}
