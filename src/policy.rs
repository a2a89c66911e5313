//! The domain policy gate: which source URLs may be fetched.
use vstd::prelude::*;

use crate::glob::{glob_matches, pattern_matches};
use crate::text::{chars_equal, to_chars};

verus! {

/// How the configured rules are enforced.
#[derive(Clone, Copy, Debug, PartialEq, Eq, Structural)]
pub enum DomainMatchMode {
    /// A URL is allowed only when some rule matches it.
    Whitelist,
    /// A URL is allowed only when no rule matches it.
    Blacklist,
}

/// The parts of a parsed URL that the rules are checked against.
#[derive(Clone, Debug)]
pub struct UrlTarget {
    pub host: Option<String>,
    pub path: String,
}

/// What the URL parser yields for a string: `None` when it does not parse,
/// else the host (absent for URLs such as `data:`) and the path.
pub uninterp spec fn parsed_url(s: Seq<char>) -> Option<(Option<Seq<char>>, Seq<char>)>;

pub open spec fn target_view(t: Option<UrlTarget>) -> Option<(Option<Seq<char>>, Seq<char>)> {
    match t {
        None => None,
        Some(u) => Some(
            (
                match u.host {
                    None => None,
                    Some(h) => Some(h@),
                },
                u.path@,
            ),
        ),
    }
}

/// Relies on `url::Url::parse` (re-exported by reqwest), `Url::host` rendered as a
/// string, and `Url::path`: a function of the input string alone.
#[verifier::external_body]
pub(crate) fn parse_url(s: &str) -> (r: Option<UrlTarget>)
    ensures
        target_view(r) == parsed_url(s@),
{
    match reqwest::Url::parse(s) {
        Ok(u) => Some(UrlTarget { host: u.host().map(|h| h.to_string()), path: u.path().to_string() }),
        Err(_) => None,
    }
}

/// Whether some rule covers the whole of `text`.
pub open spec fn some_rule_matches(rules: Seq<Seq<char>>, text: Seq<char>) -> bool {
    exists|i: int| 0 <= i < rules.len() && glob_matches(#[trigger] rules[i], text)
}

/// The policy decision for a parse result: an unparsable URL is refused; a URL
/// without a host matches no rule; otherwise the rules see host followed by path.
pub open spec fn allowed_for(
    rules: Seq<Seq<char>>,
    mode: DomainMatchMode,
    target: Option<(Option<Seq<char>>, Seq<char>)>,
) -> bool {
    match target {
        None => false,
        Some((host, path)) => {
            let matched = match host {
                None => false,
                Some(h) => some_rule_matches(rules, h + path),
            };
            match mode {
                DomainMatchMode::Whitelist => matched,
                DomainMatchMode::Blacklist => !matched,
            }
        },
    }
}

/// The rule list of a configuration string: the pieces between `;` separators,
/// empty pieces included (so an empty string gives one empty rule).
pub open spec fn split_rules(s: Seq<char>) -> Seq<Seq<char>>
    decreases s.len(),
{
    if s.len() == 0 {
        seq![Seq::empty()]
    } else {
        let prev = split_rules(s.drop_last());
        if s.last() == ';' {
            prev.push(Seq::empty())
        } else {
            prev.update(prev.len() - 1, prev.last().push(s.last()))
        }
    }
}

/// The mode that a configured mode string selects: only "blacklist" selects blacklisting.
pub open spec fn mode_from(mode: Option<Seq<char>>) -> DomainMatchMode {
    match mode {
        Some(m) => if m == "blacklist"@ {
            DomainMatchMode::Blacklist
        } else {
            DomainMatchMode::Whitelist
        },
        None => DomainMatchMode::Whitelist,
    }
}

pub open spec fn opt_view(s: Option<&str>) -> Option<Seq<char>> {
    match s {
        Some(v) => Some(v@),
        None => None,
    }
}

/// The policy: wildcard rules over host and path, and how they are enforced.
/// Built once and only read afterwards.
#[derive(Clone, Debug)]
pub struct AppState {
    pub domains: Vec<Vec<char>>,
    pub mode: DomainMatchMode,
}

fn split_on_semicolons(s: &Vec<char>) -> (r: Vec<Vec<char>>)
    ensures
        r@.map_values(|v: Vec<char>| v@) == split_rules(s@),
{
    let mut pieces: Vec<Vec<char>> = Vec::new();
    let mut cur: Vec<char> = Vec::new();
    let mut i: usize = 0;
    proof {
        assert(s@.subrange(0, 0) =~= Seq::<char>::empty());
        assert(pieces@.map_values(|v: Vec<char>| v@).push(cur@) =~= split_rules(s@.subrange(0, 0)));
    }
    while i < s.len()
        invariant
            i <= s@.len(),
            pieces@.map_values(|v: Vec<char>| v@).push(cur@) == split_rules(s@.subrange(0, i as int)),
        decreases s@.len() - i,
    {
        let c = s[i];
        let ghost before = s@.subrange(0, i as int);
        let ghost after = s@.subrange(0, i + 1);
        proof {
            assert(after.drop_last() =~= before);
            assert(after.last() == c);
        }
        if c == ';' {
            let done = cur;
            pieces.push(done);
            cur = Vec::new();
            proof {
                assert(pieces@.map_values(|v: Vec<char>| v@).push(cur@) =~= split_rules(after));
            }
        } else {
            cur.push(c);
            proof {
                assert(pieces@.map_values(|v: Vec<char>| v@).push(cur@) =~= split_rules(after));
            }
        }
        i = i + 1;
    }
    pieces.push(cur);
    proof {
        assert(s@.subrange(0, s@.len() as int) =~= s@);
        assert(pieces@.map_values(|v: Vec<char>| v@) =~= split_rules(s@));
    }
    pieces
}

impl AppState {
    /// The rules as character sequences.
    pub open spec fn rules(&self) -> Seq<Seq<char>> {
        self.domains@.map_values(|v: Vec<char>| v@)
    }

    /// Builds the policy from its two settings: the mode ("blacklist" or anything
    /// else, absent meaning whitelisting) and the `;`-separated rules (absent meaning none).
    pub fn new(mode: Option<&str>, domains: Option<&str>) -> (r: AppState)
        ensures
            r.mode == mode_from(opt_view(mode)),
            r.rules() == match domains {
                Some(d) => split_rules(d@),
                None => Seq::<Seq<char>>::empty(),
            },
    {
        let m = match mode {
            Some(v) => {
                let chars = to_chars(v);
                let word = to_chars("blacklist");
                if chars_equal(&chars, &word) {
                    DomainMatchMode::Blacklist
                } else {
                    DomainMatchMode::Whitelist
                }
            },
            None => DomainMatchMode::Whitelist,
        };
        let rules = match domains {
            Some(d) => split_on_semicolons(&to_chars(d)),
            None => Vec::new(),
        };
        proof {
            if domains is None {
                assert(rules@.map_values(|v: Vec<char>| v@) =~= Seq::<Seq<char>>::empty());
            }
        }
        AppState { domains: rules, mode: m }
    }

    /// Whether some rule covers `text` in full.
    pub fn any_rule_matches(&self, text: &Vec<char>) -> (r: bool)
        ensures
            r == some_rule_matches(self.rules(), text@),
    {
        let mut i: usize = 0;
        while i < self.domains.len()
            invariant
                i <= self.domains@.len(),
                forall|k: int| 0 <= k < i ==> !glob_matches(#[trigger] self.rules()[k], text@),
            decreases self.domains@.len() - i,
        {
            if pattern_matches(&self.domains[i], text) {
                assert(glob_matches(self.rules()[i as int], text@));
                return true;
            }
            i = i + 1;
        }
        false
    }

    /// The decision for a URL that has already been parsed (or failed to parse).
    pub fn decide(&self, target: &Option<UrlTarget>) -> (r: bool)
        ensures
            r == allowed_for(self.rules(), self.mode, target_view(*target)),
    {
        match target {
            None => false,
            Some(u) => {
                let matched = match &u.host {
                    None => false,
                    Some(h) => {
                        let mut text = to_chars(h.as_str());
                        let mut path = to_chars(u.path.as_str());
                        text.append(&mut path);
                        self.any_rule_matches(&text)
                    },
                };
                match self.mode {
                    DomainMatchMode::Whitelist => matched,
                    DomainMatchMode::Blacklist => !matched,
                }
            },
        }
    }

    /// Whether the policy lets `url_string` be fetched.
    pub fn is_allowed(&self, url_string: &str) -> (r: bool)
        ensures
            r == allowed_for(self.rules(), self.mode, parsed_url(url_string@)),
    {
        let target = parse_url(url_string);
        self.decide(&target)
    }
}

/// With no rules, whitelisting refuses every URL, and blacklisting allows every
/// URL that parses (an unparsable URL is refused in either mode).
pub proof fn lemma_no_rules(state: AppState, url: Seq<char>)
    requires
        state.domains@.len() == 0,
    ensures
        state.mode == DomainMatchMode::Whitelist ==> !allowed_for(
            state.rules(),
            state.mode,
            parsed_url(url),
        ),
        state.mode == DomainMatchMode::Blacklist && parsed_url(url) is Some ==> allowed_for(
            state.rules(),
            state.mode,
            parsed_url(url),
        ),
{
    assert(state.rules().len() == 0);
}

} // verus!
