use vstd::prelude::*;

verus! {

// ---------------------------------------------------------------------------
// Character classes
// ---------------------------------------------------------------------------

/// The ASCII decimal digits.
pub open spec fn is_ascii_digit(c: char) -> bool {
    48 <= c as u32 && c as u32 <= 57
}

/// The whitespace this library trims: exactly space, tab, line feed and
/// carriage return, the characters that surround the payload of small
/// configuration files. Other Unicode whitespace is deliberately left
/// alone, and every caller that probes a trimmed value must trim with
/// this same set.
pub open spec fn is_ws(c: char) -> bool {
    c == ' ' || c == '\t' || c == '\n' || c == '\r'
}

/// Code point of `c` with an ASCII upper-case letter folded to lower case.
pub open spec fn lower_code(c: char) -> int {
    if 65 <= c as u32 && c as u32 <= 90 {
        c as u32 + 32
    } else {
        c as u32 as int
    }
}

fn lower_code_exec(c: char) -> (r: u32)
    ensures
        r == lower_code(c),
{
    let u = c as u32;
    if 65 <= u && u <= 90 {
        u + 32
    } else {
        u
    }
}

// ---------------------------------------------------------------------------
// Digit runs
// ---------------------------------------------------------------------------

/// Index just past the run of ASCII digits of `s` that starts at `i`.
pub open spec fn digit_run_end(s: Seq<char>, i: int) -> int
    decreases s.len() - i,
{
    if 0 <= i && i < s.len() && is_ascii_digit(s[i]) {
        digit_run_end(s, i + 1)
    } else {
        i
    }
}

pub fn digit_run_end_exec(s: &str, start: usize) -> (r: usize)
    requires
        start <= s@.len(),
    ensures
        r == digit_run_end(s@, start as int),
        start <= r <= s@.len(),
{
    let n: usize = s.unicode_len();
    let mut i: usize = start;
    loop
        invariant
            start <= i <= n,
            n == s@.len(),
            digit_run_end(s@, start as int) == digit_run_end(s@, i as int),
        decreases n - i,
    {
        if i < n {
            let c = s.get_char(i);
            let u = c as u32;
            if 48 <= u && u <= 57 {
                proof {
                    assert(digit_run_end(s@, i as int) == digit_run_end(s@, i + 1));
                }
                i = i + 1;
            } else {
                proof {
                    assert(digit_run_end(s@, i as int) == i as int);
                }
                return i;
            }
        } else {
            proof {
                assert(digit_run_end(s@, i as int) == i as int);
            }
            return i;
        }
    }
}

// ---------------------------------------------------------------------------
// Prefix and suffix tests
// ---------------------------------------------------------------------------

/// `p` is a prefix of `s`.
pub open spec fn seq_starts_with(s: Seq<char>, p: Seq<char>) -> bool {
    p.len() <= s.len() && forall|j: int| 0 <= j < p.len() ==> s[j] == p[j]
}

pub fn str_starts_with(s: &str, p: &str) -> (r: bool)
    ensures
        r == seq_starts_with(s@, p@),
{
    let sn: usize = s.unicode_len();
    let pn: usize = p.unicode_len();
    if pn > sn {
        return false;
    }
    let mut i: usize = 0;
    while i < pn
        invariant
            0 <= i <= pn,
            pn <= sn,
            sn == s@.len(),
            pn == p@.len(),
            forall|j: int| 0 <= j < i ==> s@[j] == p@[j],
        decreases pn - i,
    {
        if s.get_char(i) != p.get_char(i) {
            return false;
        }
        i = i + 1;
    }
    true
}

/// `p` is a prefix of `s`, comparing ASCII letters case-insensitively.
pub open spec fn seq_starts_with_ci(s: Seq<char>, p: Seq<char>) -> bool {
    p.len() <= s.len() && forall|j: int| 0 <= j < p.len() ==> lower_code(s[j]) == lower_code(p[j])
}

pub fn str_starts_with_ci(s: &str, p: &str) -> (r: bool)
    ensures
        r == seq_starts_with_ci(s@, p@),
{
    let sn: usize = s.unicode_len();
    let pn: usize = p.unicode_len();
    if pn > sn {
        return false;
    }
    let mut i: usize = 0;
    while i < pn
        invariant
            0 <= i <= pn,
            pn <= sn,
            sn == s@.len(),
            pn == p@.len(),
            forall|j: int| 0 <= j < i ==> lower_code(s@[j]) == lower_code(p@[j]),
        decreases pn - i,
    {
        if lower_code_exec(s.get_char(i)) != lower_code_exec(p.get_char(i)) {
            return false;
        }
        i = i + 1;
    }
    true
}

/// `p` is a suffix of `s`, comparing ASCII letters case-insensitively.
pub open spec fn seq_ends_with_ci(s: Seq<char>, p: Seq<char>) -> bool {
    p.len() <= s.len() && forall|j: int|
        0 <= j < p.len() ==> lower_code(s[s.len() - p.len() + j]) == lower_code(p[j])
}

pub fn str_ends_with_ci(s: &str, p: &str) -> (r: bool)
    ensures
        r == seq_ends_with_ci(s@, p@),
{
    let sn: usize = s.unicode_len();
    let pn: usize = p.unicode_len();
    if pn > sn {
        return false;
    }
    let off: usize = sn - pn;
    let mut i: usize = 0;
    while i < pn
        invariant
            0 <= i <= pn,
            pn <= sn,
            off == sn - pn,
            sn == s@.len(),
            pn == p@.len(),
            forall|j: int| 0 <= j < i ==> lower_code(s@[s@.len() - p@.len() + j]) == lower_code(
                p@[j],
            ),
        decreases pn - i,
    {
        if lower_code_exec(s.get_char(off + i)) != lower_code_exec(p.get_char(i)) {
            return false;
        }
        i = i + 1;
    }
    true
}

/// The two sequences hold the same characters.
pub open spec fn seq_eq(s: Seq<char>, p: Seq<char>) -> bool {
    s =~= p
}

pub fn str_eq(s: &str, p: &str) -> (r: bool)
    ensures
        r == seq_eq(s@, p@),
{
    let sn: usize = s.unicode_len();
    let pn: usize = p.unicode_len();
    if pn != sn {
        return false;
    }
    let mut i: usize = 0;
    while i < pn
        invariant
            0 <= i <= pn,
            pn == sn,
            sn == s@.len(),
            pn == p@.len(),
            forall|j: int| 0 <= j < i ==> s@[j] == p@[j],
        decreases pn - i,
    {
        if s.get_char(i) != p.get_char(i) {
            return false;
        }
        i = i + 1;
    }
    true
}

// ---------------------------------------------------------------------------
// Path components ('/'-separated)
// ---------------------------------------------------------------------------

/// Index of the last '/' strictly below `j`, or -1 when there is none.
pub open spec fn last_slash_below(s: Seq<char>, j: int) -> int
    decreases j,
{
    if 0 < j && j <= s.len() {
        if s[j - 1] == '/' {
            j - 1
        } else {
            last_slash_below(s, j - 1)
        }
    } else {
        -1
    }
}

/// Index of the last '/' of `s`, or -1 when there is none.
pub open spec fn last_slash(s: Seq<char>) -> int {
    last_slash_below(s, s.len() as int)
}

pub proof fn lemma_last_slash_below_bounds(s: Seq<char>, j: int)
    requires
        0 <= j <= s.len(),
    ensures
        -1 <= last_slash_below(s, j) < j,
        last_slash_below(s, j) >= 0 ==> s[last_slash_below(s, j)] == '/',
    decreases j,
{
    if 0 < j && j <= s.len() && s[j - 1] != '/' {
        lemma_last_slash_below_bounds(s, j - 1);
    }
}

fn last_slash_exec(s: &str) -> (r: Option<usize>)
    ensures
        (r is Some) == (last_slash(s@) >= 0),
        r matches Some(v) ==> v as int == last_slash(s@),
{
    let n: usize = s.unicode_len();
    let mut j: usize = n;
    loop
        invariant
            0 <= j <= n,
            n == s@.len(),
            last_slash(s@) == last_slash_below(s@, j as int),
        decreases j,
    {
        if j == 0 {
            return None;
        }
        if s.get_char(j - 1) == '/' {
            return Some(j - 1);
        }
        j = j - 1;
    }
}

/// Everything before the last '/', when there is one.
pub open spec fn path_parent(s: Seq<char>) -> Option<Seq<char>> {
    if last_slash(s) >= 0 {
        Some(s.take(last_slash(s)))
    } else {
        None
    }
}

pub fn path_parent_exec(s: &str) -> (r: Option<String>)
    ensures
        (r is Some) == (path_parent(s@) is Some),
        r matches Some(v) ==> path_parent(s@) matches Some(w) && v@ == w,
{
    proof {
        lemma_last_slash_below_bounds(s@, s@.len() as int);
    }
    match last_slash_exec(s) {
        Some(k) => Some(String::from_str(s.substring_char(0, k))),
        None => None,
    }
}

/// Everything after the last '/'; the whole string when there is none.
pub open spec fn path_base(s: Seq<char>) -> Seq<char> {
    s.skip(last_slash(s) + 1)
}

pub fn path_base_exec(s: &str) -> (r: String)
    ensures
        r@ == path_base(s@),
{
    proof {
        lemma_last_slash_below_bounds(s@, s@.len() as int);
    }
    let n: usize = s.unicode_len();
    match last_slash_exec(s) {
        Some(k) => {
            let r = String::from_str(s.substring_char(k + 1, n));
            proof {
                assert(r@ =~= path_base(s@));
            }
            r
        },
        None => {
            let r = String::from_str(s);
            proof {
                assert(r@ =~= path_base(s@));
            }
            r
        },
    }
}

/// `a` and `b` joined with a '/' separator, as the platform path join does:
/// an empty `a` yields `b`, and no second separator is added after a
/// trailing '/'.
pub open spec fn path_join_seq(a: Seq<char>, b: Seq<char>) -> Seq<char> {
    if a.len() == 0 {
        b
    } else if a[a.len() - 1] == '/' {
        a + b
    } else {
        a + seq!['/'] + b
    }
}

pub fn path_join(a: &str, b: &str) -> (r: String)
    ensures
        r@ == path_join_seq(a@, b@),
{
    let n: usize = a.unicode_len();
    if n == 0 {
        return String::from_str(b);
    }
    let mut r = String::from_str(a);
    if a.get_char(n - 1) != '/' {
        r.append("/");
        proof {
            reveal_strlit("/");
            assert(r@ =~= a@ + seq!['/']);
        }
    }
    r.append(b);
    proof {
        assert(r@ =~= path_join_seq(a@, b@));
    }
    r
}

proof fn lemma_last_slash_below_extend(s: Seq<char>, k: int, j: int)
    requires
        0 <= k <= j <= s.len(),
        forall|i: int| k <= i < j ==> s[i] != '/',
    ensures
        last_slash_below(s, j) == last_slash_below(s, k),
    decreases j,
{
    if k < j {
        lemma_last_slash_below_extend(s, k, j - 1);
    }
}

/// Joining a nonempty, slash-free name under any directory puts that name
/// in the base position.
pub proof fn lemma_path_base_of_join(d: Seq<char>, name: Seq<char>)
    requires
        name.len() > 0,
        forall|i: int| 0 <= i < name.len() ==> name[i] != '/',
    ensures
        path_base(path_join_seq(d, name)) == name,
{
    let s = path_join_seq(d, name);
    if d.len() == 0 {
        assert(s == name);
        lemma_last_slash_below_extend(s, 0, s.len() as int);
        assert(path_base(s) =~= name);
    } else if d[d.len() - 1] == '/' {
        assert(s == d + name);
        assert forall|i: int| d.len() <= i < s.len() implies s[i] != '/' by {
            assert(s[i] == name[i - d.len()]);
        }
        lemma_last_slash_below_extend(s, d.len() as int, s.len() as int);
        assert(s[d.len() - 1] == '/');
        assert(last_slash_below(s, d.len() as int) == d.len() - 1);
        assert(path_base(s) =~= name);
    } else {
        assert(s == d + seq!['/'] + name);
        assert forall|i: int| d.len() as int + 1 <= i < s.len() implies s[i] != '/' by {
            assert(s[i] == name[i - d.len() - 1]);
        }
        lemma_last_slash_below_extend(s, d.len() as int + 1, s.len() as int);
        assert(s[d.len() as int] == '/');
        assert(last_slash_below(s, d.len() as int + 1) == d.len());
        assert(path_base(s) =~= name);
    }
}

/// Joining a nonempty, slash-free name under a nonempty directory that
/// does not end in a separator makes that directory the parent.
pub proof fn lemma_path_parent_of_join(d: Seq<char>, name: Seq<char>)
    requires
        d.len() > 0,
        d[d.len() - 1] != '/',
        name.len() > 0,
        forall|i: int| 0 <= i < name.len() ==> name[i] != '/',
    ensures
        path_parent(path_join_seq(d, name)) == Some(d),
        path_base(path_join_seq(d, name)) == name,
{
    lemma_path_base_of_join(d, name);
    let s = path_join_seq(d, name);
    assert(s == d + seq!['/'] + name);
    assert forall|i: int| d.len() as int + 1 <= i < s.len() implies s[i] != '/' by {
        assert(s[i] == name[i - d.len() - 1]);
    }
    lemma_last_slash_below_extend(s, d.len() as int + 1, s.len() as int);
    assert(s[d.len() as int] == '/');
    assert(last_slash_below(s, d.len() as int + 1) == d.len());
    assert(s.take(d.len() as int) =~= d);
}

/// The path `s` lies at or under the directory `root`: `root` is a proper
/// prefix cut at a component boundary, or the whole of `s`.
pub open spec fn path_within(s: Seq<char>, root: Seq<char>) -> bool {
    seq_starts_with(s, root) && (s.len() == root.len() || root.len() == 0 || s[root.len() as int]
        == '/' || root[root.len() - 1] == '/')
}

pub fn path_within_exec(s: &str, root: &str) -> (r: bool)
    ensures
        r == path_within(s@, root@),
{
    if !str_starts_with(s, root) {
        return false;
    }
    let sn: usize = s.unicode_len();
    let rn: usize = root.unicode_len();
    if sn == rn || rn == 0 {
        return true;
    }
    if s.get_char(rn) == '/' {
        return true;
    }
    if root.get_char(rn - 1) == '/' {
        return true;
    }
    false
}

// ---------------------------------------------------------------------------
// Splitting on a separator character
// ---------------------------------------------------------------------------

/// Index of the first occurrence of `c` in `s` at or after `i`, or the
/// length of `s` when there is none.
pub open spec fn find_from(s: Seq<char>, c: char, i: int) -> int
    decreases s.len() - i,
{
    if 0 <= i && i < s.len() {
        if s[i] == c {
            i
        } else {
            find_from(s, c, i + 1)
        }
    } else {
        s.len() as int
    }
}

pub proof fn lemma_find_from_bounds(s: Seq<char>, c: char, i: int)
    requires
        0 <= i <= s.len(),
    ensures
        i <= find_from(s, c, i) <= s.len(),
        find_from(s, c, i) < s.len() ==> s[find_from(s, c, i)] == c,
    decreases s.len() - i,
{
    if i < s.len() && s[i] != c {
        lemma_find_from_bounds(s, c, i + 1);
    }
}

fn find_from_exec(s: &str, c: char, start: usize) -> (r: usize)
    requires
        start <= s@.len(),
    ensures
        r == find_from(s@, c, start as int),
        start <= r <= s@.len(),
{
    proof {
        lemma_find_from_bounds(s@, c, start as int);
    }
    let n: usize = s.unicode_len();
    let mut i: usize = start;
    loop
        invariant
            start <= i <= n,
            n == s@.len(),
            find_from(s@, c, start as int) == find_from(s@, c, i as int),
        decreases n - i,
    {
        if i < n {
            if s.get_char(i) == c {
                return i;
            }
            i = i + 1;
        } else {
            return i;
        }
    }
}

/// The pieces of `s` between occurrences of the separator `c`: one more
/// piece than there are separators, in order, each free of `c`.
pub open spec fn split_on(s: Seq<char>, c: char) -> Seq<Seq<char>>
    decreases s.len(),
{
    let k = find_from(s, c, 0);
    if k == s.len() {
        seq![s]
    } else {
        proof {
            lemma_find_from_bounds(s, c, 0);
        }
        seq![s.take(k)] + split_on(s.skip(k + 1), c)
    }
}

pub fn split_str(s: &str, c: char) -> (r: Vec<String>)
    ensures
        r@.len() == split_on(s@, c).len(),
        forall|i: int| 0 <= i < r@.len() ==> r@[i]@ == split_on(s@, c)[i],
    decreases s@.len(),
{
    proof {
        lemma_find_from_bounds(s@, c, 0);
    }
    let n: usize = s.unicode_len();
    let k = find_from_exec(s, c, 0);
    if k == n {
        let mut r: Vec<String> = Vec::new();
        r.push(String::from_str(s));
        proof {
            assert(split_on(s@, c) =~= seq![s@]);
        }
        r
    } else {
        let head = String::from_str(s.substring_char(0, k));
        let tail = s.substring_char(k + 1, n);
        proof {
            assert(tail@ =~= s@.skip(k + 1));
        }
        let mut rest = split_str(tail, c);
        rest.insert(0, head);
        proof {
            let parts = split_on(s@, c);
            assert(parts =~= seq![s@.take(k as int)] + split_on(s@.skip(k + 1), c));
            assert(forall|i: int|
                0 <= i < rest@.len() ==> rest@[i]@ == split_on(s@, c)[i]) by {
                assert(forall|i: int| 1 <= i < rest@.len() ==> rest@[i]@ == split_on(
                    s@.skip(k + 1),
                    c,
                )[i - 1]);
            }
        }
        rest
    }
}

// ---------------------------------------------------------------------------
// Trimming surrounding whitespace
// ---------------------------------------------------------------------------

/// Index of the first non-whitespace character at or after `i`.
pub open spec fn ws_run_end(s: Seq<char>, i: int) -> int
    decreases s.len() - i,
{
    if 0 <= i && i < s.len() && is_ws(s[i]) {
        ws_run_end(s, i + 1)
    } else {
        i
    }
}

/// Index just past the last non-whitespace character strictly below `j`.
pub open spec fn ws_run_start_below(s: Seq<char>, j: int) -> int
    decreases j,
{
    if 0 < j && j <= s.len() && is_ws(s[j - 1]) {
        ws_run_start_below(s, j - 1)
    } else {
        j
    }
}

/// `s` with leading and trailing whitespace removed.
pub open spec fn trimmed(s: Seq<char>) -> Seq<char> {
    let a = ws_run_end(s, 0);
    if a == s.len() {
        Seq::empty()
    } else {
        s.subrange(a, ws_run_start_below(s, s.len() as int))
    }
}

proof fn lemma_ws_run_end_bounds(s: Seq<char>, i: int)
    requires
        0 <= i <= s.len(),
    ensures
        i <= ws_run_end(s, i) <= s.len(),
        ws_run_end(s, i) < s.len() ==> !is_ws(s[ws_run_end(s, i)]),
    decreases s.len() - i,
{
    if i < s.len() && is_ws(s[i]) {
        lemma_ws_run_end_bounds(s, i + 1);
    }
}

proof fn lemma_ws_run_start_below_bounds(s: Seq<char>, j: int)
    requires
        0 <= j <= s.len(),
    ensures
        0 <= ws_run_start_below(s, j) <= j,
        ws_run_start_below(s, j) > 0 ==> !is_ws(s[ws_run_start_below(s, j) - 1]),
    decreases j,
{
    if 0 < j && is_ws(s[j - 1]) {
        lemma_ws_run_start_below_bounds(s, j - 1);
    }
}

proof fn lemma_trim_indices(s: Seq<char>, a: int, j: int)
    requires
        0 <= a < s.len(),
        !is_ws(s[a]),
        a < j <= s.len(),
    ensures
        ws_run_start_below(s, j) > a,
    decreases j,
{
    if a < j - 1 && is_ws(s[j - 1]) {
        lemma_trim_indices(s, a, j - 1);
    }
}

fn ws_run_end_exec(s: &str, start: usize) -> (r: usize)
    requires
        start <= s@.len(),
    ensures
        r == ws_run_end(s@, start as int),
        start <= r <= s@.len(),
{
    let n: usize = s.unicode_len();
    let mut i: usize = start;
    loop
        invariant
            start <= i <= n,
            n == s@.len(),
            ws_run_end(s@, start as int) == ws_run_end(s@, i as int),
        decreases n - i,
    {
        if i < n {
            let ch = s.get_char(i);
            if ch == ' ' || ch == '\t' || ch == '\n' || ch == '\r' {
                i = i + 1;
            } else {
                return i;
            }
        } else {
            return i;
        }
    }
}

fn ws_run_start_below_exec(s: &str) -> (r: usize)
    ensures
        r == ws_run_start_below(s@, s@.len() as int),
        r <= s@.len(),
{
    proof {
        lemma_ws_run_start_below_bounds(s@, s@.len() as int);
    }
    let n: usize = s.unicode_len();
    let mut j: usize = n;
    loop
        invariant
            0 <= j <= n,
            n == s@.len(),
            ws_run_start_below(s@, n as int) == ws_run_start_below(s@, j as int),
        decreases j,
    {
        if j > 0 {
            let ch = s.get_char(j - 1);
            if ch == ' ' || ch == '\t' || ch == '\n' || ch == '\r' {
                j = j - 1;
            } else {
                return j;
            }
        } else {
            return j;
        }
    }
}

pub fn trim_str(s: &str) -> (r: String)
    ensures
        r@ == trimmed(s@),
{
    let n: usize = s.unicode_len();
    let a = ws_run_end_exec(s, 0);
    if a == n {
        let r = String::new();
        proof {
            assert(r@ =~= trimmed(s@));
        }
        r
    } else {
        proof {
            lemma_ws_run_end_bounds(s@, 0);
            lemma_trim_indices(s@, a as int, s@.len() as int);
        }
        let b = ws_run_start_below_exec(s);
        let r = String::from_str(s.substring_char(a, b));
        proof {
            assert(r@ =~= trimmed(s@));
        }
        r
    }
}

/// A copy of an optional string.
pub fn clone_opt_str(o: &Option<String>) -> (r: Option<String>)
    ensures
        r == *o,
{
    match o {
        Some(s) => Some(s.clone()),
        None => None,
    }
}

} // verus!
