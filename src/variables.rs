use vstd::prelude::*;

verus! {

/// How many substitution passes are made at most, so that values may name
/// further placeholders.
pub const MAX_PASSES: usize = 10;

pub open spec fn is_name_start(c: char) -> bool {
    ('a' <= c && c <= 'z') || ('A' <= c && c <= 'Z') || c == '_'
}

pub open spec fn is_name_char(c: char) -> bool {
    is_name_start(c) || ('0' <= c && c <= '9')
}

/// The first position at or after `j` that holds no name character.
pub open spec fn name_end(s: Seq<char>, j: int) -> int
    decreases s.len() - j,
{
    if j < 0 || j >= s.len() || !is_name_char(s[j]) {
        j
    } else {
        name_end(s, j + 1)
    }
}

/// Whether a placeholder `{name}` begins at `i`: a brace, a letter or
/// underscore, letters, digits or underscores, and a closing brace.
pub open spec fn placeholder_at(s: Seq<char>, i: int) -> bool {
    &&& 0 <= i
    &&& i + 1 < s.len()
    &&& s[i] == '{'
    &&& is_name_start(s[i + 1])
    &&& name_end(s, i + 1) < s.len()
    &&& s[name_end(s, i + 1)] == '}'
}

/// The variables as pairs of character sequences.
pub open spec fn vars_view(v: Seq<(String, String)>) -> Seq<(Seq<char>, Seq<char>)> {
    v.map_values(|p: (String, String)| (p.0@, p.1@))
}

/// No two variables share a name.
pub open spec fn names_unique(vars: Seq<(Seq<char>, Seq<char>)>) -> bool {
    forall|i: int, j: int| 0 <= i < j < vars.len() ==> vars[i].0 != vars[j].0
}

/// The value of the first variable from position `k` on named `n`.
pub open spec fn lookup_from(vars: Seq<(Seq<char>, Seq<char>)>, n: Seq<char>, k: int) -> Option<
    Seq<char>,
>
    decreases vars.len() - k,
{
    if k < 0 || k >= vars.len() {
        None
    } else if vars[k].0 == n {
        Some(vars[k].1)
    } else {
        lookup_from(vars, n, k + 1)
    }
}

/// What replaces the placeholder for `n`: its value, or the placeholder
/// itself when no variable has that name.
pub open spec fn replacement(vars: Seq<(Seq<char>, Seq<char>)>, n: Seq<char>) -> Seq<char> {
    match lookup_from(vars, n, 0) {
        Some(v) => v,
        None => seq!['{'] + n + seq!['}'],
    }
}

/// One left-to-right pass over `s` from position `i`, replacing each
/// placeholder met.
pub open spec fn pass_from(s: Seq<char>, vars: Seq<(Seq<char>, Seq<char>)>, i: int) -> Seq<char>
    decreases s.len() - i,
    via pass_from_decreases
{
    if i < 0 || i >= s.len() {
        Seq::empty()
    } else if placeholder_at(s, i) {
        replacement(vars, s.subrange(i + 1, name_end(s, i + 1))) + pass_from(
            s,
            vars,
            name_end(s, i + 1) + 1,
        )
    } else {
        seq![s[i]] + pass_from(s, vars, i + 1)
    }
}

pub proof fn lemma_name_end_bounds(s: Seq<char>, j: int)
    requires
        0 <= j,
    ensures
        j <= name_end(s, j),
        j <= s.len() ==> name_end(s, j) <= s.len(),
    decreases s.len() - j,
{
    if j < s.len() && is_name_char(s[j]) {
        lemma_name_end_bounds(s, j + 1);
    }
}

#[via_fn]
proof fn pass_from_decreases(s: Seq<char>, vars: Seq<(Seq<char>, Seq<char>)>, i: int) {
    if 0 <= i {
        lemma_name_end_bounds(s, i + 1);
    }
}

/// Up to `k` passes, stopping early once a pass changes nothing.
pub open spec fn passes(s: Seq<char>, vars: Seq<(Seq<char>, Seq<char>)>, k: nat) -> Seq<char>
    decreases k,
{
    if k == 0 {
        s
    } else if pass_from(s, vars, 0) == s {
        s
    } else {
        passes(pass_from(s, vars, 0), vars, (k - 1) as nat)
    }
}

fn name_char(c: char) -> (r: bool)
    ensures
        r == is_name_char(c),
{
    ('a' <= c && c <= 'z') || ('A' <= c && c <= 'Z') || c == '_' || ('0' <= c && c <= '9')
}

fn scan_name(s: &str, j: usize, n: usize) -> (e: usize)
    requires
        n == s@.len(),
        j <= n,
    ensures
        e as int == name_end(s@, j as int),
        j <= e <= n,
{
    let mut k: usize = j;
    let mut done = false;
    while !done && k < n
        invariant
            n == s@.len(),
            j <= k <= n,
            name_end(s@, k as int) == name_end(s@, j as int),
            done ==> name_end(s@, k as int) == k,
        decreases n - k, if done { 0int } else { 1int },
    {
        if name_char(s.get_char(k)) {
            k = k + 1;
        } else {
            done = true;
        }
    }
    k
}

/// Where the placeholder that begins at `i` ends (its closing brace), if one
/// begins there.
fn placeholder_end(s: &str, i: usize, n: usize) -> (r: Option<usize>)
    requires
        n == s@.len(),
        i < n,
    ensures
        r is Some == placeholder_at(s@, i as int),
        r matches Some(e) ==> e as int == name_end(s@, i + 1) && i + 1 <= e < n,
{
    if i + 1 >= n || s.get_char(i) != '{' {
        return None;
    }
    let c = s.get_char(i + 1);
    if !(('a' <= c && c <= 'z') || ('A' <= c && c <= 'Z') || c == '_') {
        return None;
    }
    let e = scan_name(s, i + 1, n);
    if e < n && s.get_char(e) == '}' {
        Some(e)
    } else {
        None
    }
}

fn lookup(vars: &Vec<(String, String)>, name: &str) -> (r: Option<usize>)
    ensures
        match lookup_from(vars_view(vars@), name@, 0) {
            Some(v) => r matches Some(k) && k < vars@.len() && vars@[k as int].1@ == v,
            None => r is None,
        },
{
    let target = name.to_owned();
    let mut k: usize = 0;
    while k < vars.len()
        invariant
            k <= vars@.len(),
            target@ == name@,
            lookup_from(vars_view(vars@), name@, 0) == lookup_from(vars_view(vars@), name@, k as int),
        decreases vars@.len() - k,
    {
        if vars[k].0 == target {
            return Some(k);
        }
        k = k + 1;
    }
    None
}

/// One pass of placeholder replacement over `s`.
pub fn substitute_once(s: &str, vars: &Vec<(String, String)>) -> (r: String)
    ensures
        r@ == pass_from(s@, vars_view(vars@), 0),
{
    let ghost vv = vars_view(vars@);
    let n = s.unicode_len();
    let mut out = String::new();
    let mut i: usize = 0;
    while i < n
        invariant
            n == s@.len(),
            i <= n,
            vv == vars_view(vars@),
            out@ + pass_from(s@, vv, i as int) == pass_from(s@, vv, 0),
        decreases n - i,
    {
        let ghost before = out@;
        match placeholder_end(s, i, n) {
            Some(e) => {
                let name = s.substring_char(i + 1, e);
                match lookup(vars, name) {
                    Some(k) => {
                        out.append(vars[k].1.as_str());
                    },
                    None => {
                        let whole = s.substring_char(i, e + 1);
                        assert(whole@ =~= seq!['{'] + name@ + seq!['}']);
                        out.append(whole);
                    },
                }
                assert(before + pass_from(s@, vv, i as int) =~= out@ + pass_from(s@, vv, e + 1));
                i = e + 1;
            },
            None => {
                let one = s.substring_char(i, i + 1);
                assert(one@ =~= seq![s@[i as int]]);
                out.append(one);
                assert(before + pass_from(s@, vv, i as int) =~= out@ + pass_from(s@, vv, i + 1));
                i = i + 1;
            },
        }
    }
    assert(out@ + pass_from(s@, vv, i as int) =~= out@);
    out
}

/// Replaces each `{name}` placeholder by the value of the variable `name`,
/// leaving placeholders without a variable as they are; values may hold
/// placeholders in turn, resolved over at most `MAX_PASSES` passes.
pub fn substitute_variables(template: &str, variables: &Vec<(String, String)>) -> (r: String)
    requires
        names_unique(vars_view(variables@)),
    ensures
        r@ == passes(template@, vars_view(variables@), MAX_PASSES as nat),
{
    let ghost vv = vars_view(variables@);
    let mut result = template.to_owned();
    let mut k: usize = 0;
    let mut done = false;
    while !done && k < MAX_PASSES
        invariant
            k <= MAX_PASSES,
            vv == vars_view(variables@),
            passes(result@, vv, (MAX_PASSES - k) as nat) == passes(template@, vv, MAX_PASSES as nat),
            done ==> pass_from(result@, vv, 0) == result@,
        decreases MAX_PASSES - k, if done { 0int } else { 1int },
    {
        let next = substitute_once(result.as_str(), variables);
        if next == result {
            done = true;
        } else {
            result = next;
            k = k + 1;
        }
    }
    result
}

} // verus!
