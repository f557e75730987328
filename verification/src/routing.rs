//! How routing rules match application names, as stored in the
//! database (`app_routes.pattern_type`).

use vstd::prelude::*;

use crate::text::{chars_of, starts_with, starts_with_chars};

verus! {

/// How a routing rule's pattern matches an application name.
#[derive(Debug, Clone, Copy, PartialEq, Eq, Structural)]
pub enum PatternType {
    Exact,
    Prefix,
    Regex,
}

/// The name a pattern type is stored under.
pub open spec fn spec_pattern_type_name(p: PatternType) -> Seq<char> {
    match p {
        PatternType::Exact => "exact"@,
        PatternType::Prefix => "prefix"@,
        PatternType::Regex => "regex"@,
    }
}

/// The pattern type a stored name denotes; an unknown name is read as
/// an exact match.
pub open spec fn spec_pattern_type_of(s: Seq<char>) -> PatternType {
    if s == "prefix"@ {
        PatternType::Prefix
    } else if s == "regex"@ {
        PatternType::Regex
    } else {
        PatternType::Exact
    }
}

impl PatternType {
    /// The name this pattern type is stored under.
    pub fn as_db_str(self) -> (r: &'static str)
        ensures
            r@ == spec_pattern_type_name(self),
    {
        match self {
            PatternType::Exact => "exact",
            PatternType::Prefix => "prefix",
            PatternType::Regex => "regex",
        }
    }

    /// The pattern type a stored name denotes.
    pub fn from_db_str(s: &str) -> (r: Self)
        ensures
            r == spec_pattern_type_of(s@),
    {
        let key = String::from_str(s);
        if key == String::from_str("prefix") {
            PatternType::Prefix
        } else if key == String::from_str("regex") {
            PatternType::Regex
        } else {
            PatternType::Exact
        }
    }
}

/// A stored pattern type reads back as itself.
pub proof fn lemma_pattern_type_round_trip(p: PatternType)
    ensures
        spec_pattern_type_of(spec_pattern_type_name(p)) == p,
{
    reveal_strlit("exact");
    reveal_strlit("prefix");
    reveal_strlit("regex");
    assert(spec_pattern_type_name(PatternType::Exact)[0] != spec_pattern_type_name(
        PatternType::Prefix,
    )[0]);
    assert(spec_pattern_type_name(PatternType::Exact)[0] != spec_pattern_type_name(
        PatternType::Regex,
    )[0]);
}

/// A routing rule: applications matching `pattern` go to `channel`;
/// among matching rules a higher `priority` wins.
#[derive(Debug)]
pub struct RouteRule {
    pub pattern: String,
    pub pattern_type: PatternType,
    pub channel: String,
    pub priority: i32,
}

impl RouteRule {
    pub fn new(pattern: String, pattern_type: PatternType, channel: String, priority: i32) -> (r: Self)
        ensures
            r == (RouteRule { pattern, pattern_type, channel, priority }),
    {
        RouteRule { pattern, pattern_type, channel, priority }
    }
}

/// The channel an application goes to when no rule matches it.
pub open spec fn spec_default_channel() -> Seq<char> {
    "system"@
}

/// A rule matches a name: an exact rule the name itself, a prefix rule
/// every name that starts with its pattern. This build carries no
/// regular-expression engine, so a regex rule matches no name.
pub open spec fn rule_matches(r: RouteRule, name: Seq<char>) -> bool {
    match r.pattern_type {
        PatternType::Exact => name == r.pattern@,
        PatternType::Prefix => starts_with(name, r.pattern@),
        PatternType::Regex => false,
    }
}

/// A rule matches an application by its name or by its binary's name.
pub open spec fn matches_app(r: RouteRule, name: Seq<char>, binary: Option<Seq<char>>) -> bool {
    rule_matches(r, name) || (binary matches Some(b) && rule_matches(r, b))
}

/// Some rule matches the application.
pub open spec fn any_rule_matches(rules: Seq<RouteRule>, name: Seq<char>, binary: Option<Seq<char>>) -> bool {
    exists|i: int| 0 <= i < rules.len() && matches_app(#[trigger] rules[i], name, binary)
}

/// Rule `i` decides where the application goes: it matches, no
/// matching rule has a higher priority, and no earlier matching rule
/// has the same priority.
pub open spec fn chosen_rule(rules: Seq<RouteRule>, name: Seq<char>, binary: Option<Seq<char>>, i: int) -> bool {
    &&& 0 <= i < rules.len()
    &&& matches_app(rules[i], name, binary)
    &&& forall|j: int|
        0 <= j < rules.len() && matches_app(#[trigger] rules[j], name, binary) ==> rules[j].priority
            <= rules[i].priority && (j < i ==> rules[j].priority < rules[i].priority)
}

/// The channel the rules send an application to: that of the chosen
/// rule, or the default channel when no rule matches.
pub open spec fn spec_channel_for_app(rules: Seq<RouteRule>, name: Seq<char>, binary: Option<Seq<char>>) -> Seq<char> {
    if any_rule_matches(rules, name, binary) {
        rules[choose|i: int| chosen_rule(rules, name, binary, i)].channel@
    } else {
        spec_default_channel()
    }
}

/// The views of an optional string.
pub open spec fn opt_chars(s: Option<String>) -> Option<Seq<char>> {
    match s {
        Some(x) => Some(x@),
        None => None,
    }
}

/// At most one rule is chosen.
proof fn lemma_chosen_rule_unique(rules: Seq<RouteRule>, name: Seq<char>, binary: Option<Seq<char>>, i: int, k: int)
    requires
        chosen_rule(rules, name, binary, i),
        chosen_rule(rules, name, binary, k),
    ensures
        i == k,
{
    assert(matches_app(rules[i], name, binary));
    assert(matches_app(rules[k], name, binary));
}

impl RouteRule {
    /// The rule matches the name.
    pub fn matches(&self, name: &str) -> (b: bool)
        ensures
            b == rule_matches(*self, name@),
    {
        match self.pattern_type {
            PatternType::Exact => self.pattern == String::from_str(name),
            PatternType::Prefix => {
                let n = chars_of(name);
                let p = chars_of(self.pattern.as_str());
                starts_with_chars(&n, &p)
            },
            PatternType::Regex => false,
        }
    }

    /// The rule matches the application by its name or binary.
    pub fn matches_app(&self, name: &str, binary: &Option<String>) -> (b: bool)
        ensures
            b == matches_app(*self, name@, opt_chars(*binary)),
    {
        if self.matches(name) {
            return true;
        }
        match binary {
            Some(bin) => self.matches(bin.as_str()),
            None => false,
        }
    }
}

/// Some rule matches the application.
pub fn any_rule_matches_app(routes: &Vec<RouteRule>, name: &str, binary: &Option<String>) -> (b: bool)
    ensures
        b == any_rule_matches(routes@, name@, opt_chars(*binary)),
{
    let mut i: usize = 0;
    while i < routes.len()
        invariant
            i <= routes.len(),
            forall|j: int| 0 <= j < i ==> !matches_app(#[trigger] routes@[j], name@, opt_chars(*binary)),
        decreases routes.len() - i,
    {
        if routes[i].matches_app(name, binary) {
            return true;
        }
        i = i + 1;
    }
    false
}

/// The channel the rules send an application to: the channel of the
/// matching rule of highest priority, the earliest among equals, or
/// `system` when none matches.
pub fn find_channel_for_app(name: &str, binary: &Option<String>, routes: &Vec<RouteRule>) -> (c: String)
    ensures
        c@ == spec_channel_for_app(routes@, name@, opt_chars(*binary)),
{
    let ghost bin = opt_chars(*binary);
    let mut best: Option<usize> = None;
    let mut i: usize = 0;
    while i < routes.len()
        invariant
            i <= routes.len(),
            bin == opt_chars(*binary),
            match best {
                Some(b) => chosen_rule(routes@.take(i as int), name@, bin, b as int),
                None => forall|j: int| 0 <= j < i ==> !matches_app(#[trigger] routes@[j], name@, bin),
            },
        decreases routes.len() - i,
    {
        if routes[i].matches_app(name, binary) {
            match best {
                Some(b) => {
                    if routes[i].priority > routes[b].priority {
                        best = Some(i);
                    }
                },
                None => {
                    best = Some(i);
                },
            }
        }
        proof {
            let t = routes@.take(i + 1);
            assert forall|j: int| 0 <= j < i + 1 implies #[trigger] t[j] == routes@[j] by {}
            match best {
                Some(b) => {
                    assert forall|j: int|
                        0 <= j < t.len() && matches_app(#[trigger] t[j], name@, bin) implies t[j].priority
                        <= t[b as int].priority && (j < b ==> t[j].priority < t[b as int].priority) by {
                        if j < i {
                            assert(routes@.take(i as int)[j] == routes@[j]);
                        }
                    }
                },
                None => {},
            }
        }
        i = i + 1;
    }
    assert(routes@.take(routes@.len() as int) =~= routes@);
    match best {
        Some(b) => {
            proof {
                assert(any_rule_matches(routes@, name@, bin)) by {
                    assert(matches_app(routes@[b as int], name@, bin));
                }
                let k = choose|k: int| chosen_rule(routes@, name@, bin, k);
                lemma_chosen_rule_unique(routes@, name@, bin, b as int, k);
            }
            routes[b].channel.clone()
        },
        None => String::from_str("system"),
    }
}

/// The rule is not for the given pattern.
pub open spec fn other_pattern(r: RouteRule, pattern: Seq<char>) -> bool {
    r.pattern@ != pattern
}

/// The rules that are not for the given pattern, in order.
pub open spec fn rules_without(rules: Seq<RouteRule>, pattern: Seq<char>) -> Seq<RouteRule> {
    rules.filter(|r: RouteRule| other_pattern(r, pattern))
}

/// The rule that routing an application from the mixer creates: an
/// exact match of priority 100.
pub open spec fn app_route_rule(r: RouteRule, pattern: Seq<char>, channel: Seq<char>) -> bool {
    &&& r.pattern@ == pattern
    &&& r.pattern_type == PatternType::Exact
    &&& r.channel@ == channel
    &&& r.priority == 100
}

/// Removes every rule for the given pattern, keeping the others in
/// order.
pub fn remove_app_route(routes: &mut Vec<RouteRule>, app_pattern: &str)
    ensures
        final(routes)@ == rules_without(old(routes)@, app_pattern@),
{
    let key = String::from_str(app_pattern);
    let mut old_routes: Vec<RouteRule> = Vec::new();
    std::mem::swap(routes, &mut old_routes);
    let ghost olds = old_routes@;
    assert(olds.take(0) =~= Seq::<RouteRule>::empty());
    let mut kept: Vec<RouteRule> = Vec::new();
    let ghost mut i: int = 0;
    while old_routes.len() > 0
        invariant
            0 <= i <= olds.len(),
            old_routes@ == olds.skip(i),
            key@ == app_pattern@,
            kept@ == rules_without(olds.take(i), app_pattern@),
        decreases old_routes.len(),
    {
        let rule = old_routes.remove(0);
        let same = rule.pattern == key;
        let keep = !same;
        proof {
            reveal_with_fuel(Seq::<_>::filter, 1);
            assert(olds.take(i + 1).drop_last() =~= olds.take(i));
            assert(olds.take(i + 1).last() == olds[i]);
            assert(rule == olds[i]);
            assert(keep == other_pattern(olds[i], app_pattern@));
            assert(old_routes@ =~= olds.skip(i + 1));
        }
        if keep {
            kept.push(rule);
        }
        proof {
            i = i + 1;
        }
    }
    assert(olds.take(olds.len() as int) =~= olds);
    *routes = kept;
}

/// Routes an application pattern to a channel: the pattern's earlier
/// rules are removed and an exact rule of priority 100 is appended.
/// Returns the new rule.
pub fn set_app_route(routes: &mut Vec<RouteRule>, app_pattern: &str, channel: &str) -> (rule:
    RouteRule)
    ensures
        app_route_rule(rule, app_pattern@, channel@),
        final(routes)@.len() == rules_without(old(routes)@, app_pattern@).len() + 1,
        final(routes)@.drop_last() == rules_without(old(routes)@, app_pattern@),
        app_route_rule(final(routes)@.last(), app_pattern@, channel@),
{
    remove_app_route(routes, app_pattern);
    routes.push(
        RouteRule::new(
            String::from_str(app_pattern),
            PatternType::Exact,
            String::from_str(channel),
            100,
        ),
    );
    RouteRule::new(String::from_str(app_pattern), PatternType::Exact, String::from_str(channel), 100)
}

/// The routes in force after loading a profile: the profile's routes,
/// unless it has none, in which case the current routes stay.
pub fn routes_after_profile_load(current: Vec<RouteRule>, profile_routes: Vec<RouteRule>) -> (r: Vec<
    RouteRule,
>)
    ensures
        r@ == if profile_routes@.len() == 0 {
            current@
        } else {
            profile_routes@
        },
{
    if profile_routes.len() == 0 {
        current
    } else {
        profile_routes
    }
}

/// After an application pattern is routed, exactly one rule is for that
/// pattern, and it sends the pattern to the chosen channel.
pub proof fn lemma_set_route_leaves_one_rule(
    old_rules: Seq<RouteRule>,
    new_rules: Seq<RouteRule>,
    pattern: Seq<char>,
    channel: Seq<char>,
)
    requires
        new_rules.len() > 0,
        new_rules.drop_last() == rules_without(old_rules, pattern),
        app_route_rule(new_rules.last(), pattern, channel),
    ensures
        forall|i: int|
            0 <= i < new_rules.len() && #[trigger] new_rules[i].pattern@ == pattern ==> i
                == new_rules.len() - 1,
        new_rules.last().channel@ == channel,
{
    let pred = |r: RouteRule| other_pattern(r, pattern);
    assert forall|i: int|
        0 <= i < new_rules.len() && #[trigger] new_rules[i].pattern@ == pattern implies i
        == new_rules.len() - 1 by {
        if i < new_rules.len() - 1 {
            broadcast use vstd::seq_lib::group_filter_ensures;

            assert(new_rules.drop_last()[i] == new_rules[i]);
            assert(pred(rules_without(old_rules, pattern)[i]));
        }
    }
}

/// How a rule matches a name: an exact rule only the pattern itself, a
/// prefix rule exactly the names that begin with the pattern, a regex
/// rule none.
pub proof fn lemma_rule_matching(r: RouteRule, name: Seq<char>)
    ensures
        r.pattern_type == PatternType::Exact ==> (rule_matches(r, name) <==> name == r.pattern@),
        r.pattern_type == PatternType::Prefix ==> (rule_matches(r, name) <==> (r.pattern@.len()
            <= name.len() && name.subrange(0, r.pattern@.len() as int) == r.pattern@)),
        r.pattern_type == PatternType::Regex ==> !rule_matches(r, name),
{
}

/// An application goes to the channel of a rule that matches its name
/// or its binary's name and whose priority no other matching rule
/// exceeds, ties going to the earlier rule; with no matching rule it
/// goes to `system`.
pub proof fn lemma_channel_for_app(rules: Seq<RouteRule>, name: Seq<char>, binary: Option<Seq<char>>)
    ensures
        (forall|j: int|
            0 <= j < rules.len() ==> !(rule_matches(#[trigger] rules[j], name) || (
            binary matches Some(b) && rule_matches(rules[j], b)))) ==> spec_channel_for_app(
            rules,
            name,
            binary,
        ) == "system"@,
        (exists|j: int|
            0 <= j < rules.len() && (rule_matches(#[trigger] rules[j], name) || (
            binary matches Some(b) && rule_matches(rules[j], b)))) ==> exists|i: int|
            {
                &&& 0 <= i < rules.len()
                &&& rule_matches(#[trigger] rules[i], name) || (binary matches Some(b)
                    && rule_matches(rules[i], b))
                &&& spec_channel_for_app(rules, name, binary) == rules[i].channel@
                &&& forall|j: int|
                    0 <= j < rules.len() && (rule_matches(#[trigger] rules[j], name) || (
                    binary matches Some(b) && rule_matches(rules[j], b))) ==> rules[j].priority
                        <= rules[i].priority && (j < i ==> rules[j].priority < rules[i].priority)
            },
{
    if exists|j: int|
        0 <= j < rules.len() && (rule_matches(#[trigger] rules[j], name) || (binary matches Some(b)
            && rule_matches(rules[j], b))) {
        let j = choose|j: int|
            0 <= j < rules.len() && (rule_matches(#[trigger] rules[j], name) || (binary matches Some(
                b,
            ) && rule_matches(rules[j], b)));
        assert(matches_app(rules[j], name, binary));
        lemma_chosen_rule_exists(rules, name, binary, j);
        let i = choose|i: int| chosen_rule(rules, name, binary, i);
        assert forall|j: int|
            0 <= j < rules.len() && (rule_matches(#[trigger] rules[j], name) || (binary matches Some(
                b,
            ) && rule_matches(rules[j], b))) implies rules[j].priority <= rules[i].priority && (j
            < i ==> rules[j].priority < rules[i].priority) by {
            assert(matches_app(rules[j], name, binary));
        }
    } else {
        assert forall|j: int| 0 <= j < rules.len() implies !matches_app(#[trigger] rules[j], name, binary) by {
            assert(!(rule_matches(rules[j], name) || (binary matches Some(b) && rule_matches(
                rules[j],
                b,
            ))));
        }
    }
}

/// When some rule matches, a chosen rule exists.
proof fn lemma_chosen_rule_exists(rules: Seq<RouteRule>, name: Seq<char>, binary: Option<Seq<char>>, j: int)
    requires
        0 <= j < rules.len(),
        matches_app(rules[j], name, binary),
    ensures
        exists|i: int| chosen_rule(rules, name, binary, i),
    decreases rules.len(),
{
    // The first rule of the highest priority among the matching ones.
    let n = rules.len();
    let best = lemma_best_index(rules, name, binary, n as int);
    assert(chosen_rule(rules, name, binary, best));
}

/// Among the rules before `k`, if one matches, the first one of the
/// highest matching priority.
proof fn lemma_best_index(rules: Seq<RouteRule>, name: Seq<char>, binary: Option<Seq<char>>, k: int) -> (b: int)
    requires
        0 <= k <= rules.len(),
        exists|j: int| 0 <= j < k && matches_app(#[trigger] rules[j], name, binary),
    ensures
        0 <= b < k,
        matches_app(rules[b], name, binary),
        forall|j: int|
            0 <= j < k && matches_app(#[trigger] rules[j], name, binary) ==> rules[j].priority
                <= rules[b].priority && (j < b ==> rules[j].priority < rules[b].priority),
    decreases k,
{
    if exists|j: int| 0 <= j < k - 1 && matches_app(#[trigger] rules[j], name, binary) {
        let b0 = lemma_best_index(rules, name, binary, k - 1);
        if matches_app(rules[k - 1], name, binary) && rules[k - 1].priority > rules[b0].priority {
            k - 1
        } else {
            b0
        }
    } else {
        let j = choose|j: int| 0 <= j < k && matches_app(#[trigger] rules[j], name, binary);
        assert(j == k - 1);
        k - 1
    }
}

} // verus!
