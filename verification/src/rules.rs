//! The rule model: an ordered, immutable sequence of (host pattern,
//! parameter pattern) pairs. A query parameter is stripped when any rule
//! whose host pattern matches the URL's host also has a parameter pattern
//! matching the parameter's key — rules are unioned, never short-circuited.

use vstd::prelude::*;

use crate::pattern::{regex_match, regex_valid, Matcher};
use crate::rulefile::{csv_rows, csv_text, pair_rows, parse_csv, write_csv};

verus! {

/// The mathematical content of one rule: the two pattern strings.
pub struct RulePat {
    pub host: Seq<char>,
    pub param: Seq<char>,
}

/// One rule: a host pattern and a parameter-name pattern.
pub struct Rule {
    pub host: Matcher,
    pub param: Matcher,
}

impl View for Rule {
    type V = RulePat;

    open spec fn view(&self) -> RulePat {
        RulePat { host: self.host@, param: self.param@ }
    }
}

/// Errors of rule loading.
#[derive(Clone, Copy, Debug, PartialEq, Eq, Structural)]
pub enum ConfigError {
    /// The rule text does not parse as two-column rows.
    InvalidCsv,
    /// A row's field does not compile as a regular expression.
    InvalidPattern,
    /// The backing store cannot be read or written.
    IOFailure,
}

/// The ordered rule set, loaded once at startup and never mutated.
pub struct Config {
    rules: Vec<Rule>,
}

impl View for Config {
    type V = Seq<RulePat>;

    closed spec fn view(&self) -> Seq<RulePat> {
        Seq::new(self.rules@.len(), |i: int| self.rules@[i]@)
    }
}

/// Whether every pattern of every row compiles.
pub open spec fn rows_valid(rows: Seq<(Seq<char>, Seq<char>)>) -> bool {
    forall|i: int|
        0 <= i < rows.len() ==> regex_valid((#[trigger] rows[i]).0) && regex_valid(rows[i].1)
}

/// Whether the rule patterns are exactly the patterns of the rows, in order.
pub open spec fn rules_match_rows(
    rules: Seq<RulePat>,
    rows: Seq<(Seq<char>, Seq<char>)>,
) -> bool {
    &&& rules.len() == rows.len()
    &&& forall|i: int|
        0 <= i < rows.len() ==> (#[trigger] rules[i]).host == rows[i].0 && rules[i].param
            == rows[i].1
}

/// The two built-in default rules.
pub open spec fn default_rows() -> Seq<(Seq<char>, Seq<char>)> {
    seq![("twitter.com"@, "t|s"@), (".*"@, "utm_.*"@)]
}

/// Whether any rule whose host pattern matches `host` has a parameter
/// pattern matching `key`.
pub open spec fn strips_key(rules: Seq<RulePat>, host: Seq<char>, key: Seq<char>) -> bool {
    exists|i: int|
        0 <= i < rules.len() && regex_match((#[trigger] rules[i]).host, host) && regex_match(
            rules[i].param,
            key,
        )
}

impl Config {
    /// Compiles each row's two fields into a rule, in row order. Returns
    /// `InvalidPattern` exactly when some field does not compile.
    pub fn from_rows(rows: &Vec<(String, String)>) -> (r: Result<Config, ConfigError>)
        ensures
            r is Ok <==> rows_valid(rows.deep_view()),
            r matches Ok(c) ==> rules_match_rows(c@, rows.deep_view()),
            r matches Err(e) ==> e == ConfigError::InvalidPattern,
    {
        let ghost rows_v = rows.deep_view();
        let mut rules: Vec<Rule> = Vec::new();
        let mut idx: usize = 0;
        while idx < rows.len()
            invariant
                rows_v == rows.deep_view(),
                0 <= idx <= rows.len(),
                rows_v.len() == rows@.len(),
                rules@.len() == idx,
                forall|i: int|
                    0 <= i < idx ==> regex_valid((#[trigger] rows_v[i]).0) && regex_valid(
                        rows_v[i].1,
                    ),
                forall|i: int|
                    0 <= i < idx ==> (#[trigger] rules@[i])@.host == rows_v[i].0 && rules@[i]@.param
                        == rows_v[i].1,
            decreases rows.len() - idx,
        {
            proof {
                assert(rows_v[idx as int] == (rows@[idx as int].0@, rows@[idx as int].1@));
            }
            let host = match Matcher::new(rows[idx].0.as_str()) {
                Some(m) => m,
                None => {
                    proof {
                        assert(!regex_valid(rows_v[idx as int].0));
                        assert(!rows_valid(rows_v));
                    }
                    return Err(ConfigError::InvalidPattern);
                },
            };
            let param = match Matcher::new(rows[idx].1.as_str()) {
                Some(m) => m,
                None => {
                    proof {
                        assert(!regex_valid(rows_v[idx as int].1));
                        assert(!rows_valid(rows_v));
                    }
                    return Err(ConfigError::InvalidPattern);
                },
            };
            proof {
                assert(regex_valid(rows_v[idx as int].0) && regex_valid(rows_v[idx as int].1));
            }
            rules.push(Rule { host, param });
            idx = idx + 1;
        }
        let c = Config { rules };
        proof {
            assert(rules_match_rows(c@, rows_v));
        }
        Ok(c)
    }

    /// The built-in default rule set: strip `t` and `s` on twitter.com-style
    /// hosts, and `utm_*` parameters on every host. `None` only if a built-in
    /// pattern fails to compile.
    pub fn defaults() -> (r: Option<Config>)
        ensures
            r is Some <==> rows_valid(default_rows()),
            r matches Some(c) ==> rules_match_rows(c@, default_rows()),
    {
        let mut rows: Vec<(String, String)> = Vec::new();
        rows.push(("twitter.com".to_owned(), "t|s".to_owned()));
        rows.push((".*".to_owned(), "utm_.*".to_owned()));
        proof {
            assert(rows.deep_view() =~= default_rows());
        }
        match Config::from_rows(&rows) {
            Ok(c) => Some(c),
            Err(_) => None,
        }
    }

    /// How many rules the set holds.
    pub fn len(&self) -> (n: usize)
        ensures
            n == self@.len(),
    {
        self.rules.len()
    }

    /// The host pattern and parameter pattern of the rule at `i`.
    pub fn rule_sources(&self, i: usize) -> (r: (&str, &str))
        requires
            i < self@.len(),
        ensures
            r.0@ == self@[i as int].host,
            r.1@ == self@[i as int].param,
    {
        let rule = &self.rules[i];
        (rule.host.source(), rule.param.source())
    }

    /// Whether some rule strips the query parameter `key` on `host`.
    pub fn strips(&self, host: &str, key: &str) -> (r: bool)
        ensures
            r == strips_key(self@, host@, key@),
    {
        let n = self.rules.len();
        let mut idx: usize = 0;
        while idx < n
            invariant
                n == self.rules@.len(),
                0 <= idx <= n,
                self@.len() == n,
                forall|i: int|
                    0 <= i < idx ==> !(regex_match((#[trigger] self@[i]).host, host@)
                        && regex_match(self@[i].param, key@)),
            decreases n - idx,
        {
            let rule = &self.rules[idx];
            if rule.host.is_match(host) && rule.param.is_match(key) {
                proof {
                    assert(regex_match(self@[idx as int].host, host@) && regex_match(
                        self@[idx as int].param,
                        key@,
                    ));
                }
                return true;
            }
            idx = idx + 1;
        }
        false
    }
}

/// Whether every record has exactly the two rule fields.
pub open spec fn two_field_rows(rows: Seq<Seq<Seq<char>>>) -> bool {
    forall|i: int| 0 <= i < rows.len() ==> (#[trigger] rows[i]).len() == 2
}

/// The (host pattern, parameter pattern) pairs of two-field records.
pub open spec fn row_pairs(rows: Seq<Seq<Seq<char>>>) -> Seq<(Seq<char>, Seq<char>)> {
    Seq::new(rows.len(), |i: int| (rows[i][0], rows[i][1]))
}

/// The pattern rows of a rule set, in rule order.
pub open spec fn config_rows(rules: Seq<RulePat>) -> Seq<(Seq<char>, Seq<char>)> {
    Seq::new(rules.len(), |i: int| (rules[i].host, rules[i].param))
}

/// What falling back to the built-in defaults yields: the two default
/// rules, or `InvalidPattern` in the never-taken case that a built-in
/// pattern does not compile.
pub open spec fn defaults_outcome(r: Result<Config, ConfigError>) -> bool {
    &&& r is Ok <==> rows_valid(default_rows())
    &&& r matches Ok(c) ==> rules_match_rows(c@, default_rows())
    &&& r matches Err(e) ==> e == ConfigError::InvalidPattern
}

/// The built-in defaults as a loading outcome.
fn defaults_or_err() -> (r: Result<Config, ConfigError>)
    ensures
        defaults_outcome(r),
{
    match Config::defaults() {
        Some(c) => Ok(c),
        None => Err(ConfigError::InvalidPattern),
    }
}

/// Loads the rule set from the persisted rule text, `None` where no rule
/// store exists. An absent store and an empty row list both fall back to
/// the two built-in default rules; malformed text is `InvalidCsv`, a field
/// that does not compile is `InvalidPattern`.
pub fn load_rules(stored: Option<&str>) -> (r: Result<Config, ConfigError>)
    ensures
        stored is None ==> defaults_outcome(r),
        stored matches Some(t) ==> (match csv_rows(t@) {
            Option::None => r == Err::<Config, ConfigError>(ConfigError::InvalidCsv),
            Option::Some(rows) => {
                if !two_field_rows(rows) {
                    r == Err::<Config, ConfigError>(ConfigError::InvalidCsv)
                } else if rows.len() == 0 {
                    defaults_outcome(r)
                } else {
                    &&& r is Ok <==> rows_valid(row_pairs(rows))
                    &&& r matches Ok(c) ==> rules_match_rows(c@, row_pairs(rows))
                    &&& (r matches Err(e) ==> e == ConfigError::InvalidPattern)
                }
            },
        }),
{
    let text = match stored {
        None => {
            return defaults_or_err();
        },
        Some(t) => t,
    };
    let rows = match parse_csv(text) {
        None => {
            return Err(ConfigError::InvalidCsv);
        },
        Some(rows) => rows,
    };
    let ghost rows_v = rows.deep_view();
    let mut pairs: Vec<(String, String)> = Vec::new();
    let mut idx: usize = 0;
    while idx < rows.len()
        invariant
            stored == Some(text),
            csv_rows(text@) == Some(rows_v),
            rows_v == rows.deep_view(),
            rows_v.len() == rows@.len(),
            idx <= rows.len(),
            pairs@.len() == idx,
            forall|i: int| 0 <= i < idx ==> (#[trigger] rows_v[i]).len() == 2,
            forall|i: int|
                0 <= i < idx ==> #[trigger] pairs.deep_view()[i] == (rows_v[i][0], rows_v[i][1]),
        decreases rows.len() - idx,
    {
        let row = &rows[idx];
        proof {
            assert(rows_v[idx as int] == rows@[idx as int].deep_view());
        }
        if row.len() != 2 {
            proof {
                assert(rows_v[idx as int].len() != 2);
            }
            return Err(ConfigError::InvalidCsv);
        }
        let ghost pairs_before = pairs.deep_view();
        pairs.push((row[0].clone(), row[1].clone()));
        proof {
            assert(pairs.deep_view() =~= pairs_before.push(
                (rows_v[idx as int][0], rows_v[idx as int][1]),
            ));
        }
        idx = idx + 1;
    }
    proof {
        assert(pairs.deep_view() =~= row_pairs(rows_v));
    }
    if pairs.len() == 0 {
        return defaults_or_err();
    }
    Config::from_rows(&pairs)
}

/// Renders the rule set's pattern rows as rule-file text, ready to be
/// persisted.
pub fn render_rules(config: &Config) -> (r: String)
    ensures
        r@ == csv_text(pair_rows(config_rows(config@))),
{
    let n = config.len();
    let mut rows: Vec<(String, String)> = Vec::new();
    let mut idx: usize = 0;
    while idx < n
        invariant
            n == config@.len(),
            idx <= n,
            rows@.len() == idx,
            forall|i: int|
                0 <= i < idx ==> #[trigger] rows.deep_view()[i] == (
                    config@[i].host,
                    config@[i].param,
                ),
        decreases n - idx,
    {
        let (host, param) = config.rule_sources(idx);
        let ghost rows_before = rows.deep_view();
        rows.push((host.to_owned(), param.to_owned()));
        proof {
            assert(rows.deep_view() =~= rows_before.push(
                (config@[idx as int].host, config@[idx as int].param),
            ));
        }
        idx = idx + 1;
    }
    proof {
        assert(rows.deep_view() =~= config_rows(config@));
    }
    write_csv(&rows)
}

} // verus!
