use vstd::prelude::*;
use vstd::string::*;

verus! {

/// One classified line of user input.
pub enum Action {
    Empty,
    Message(String),
    ClearContext,
    ShowHelp,
    ShowHistory,
    SaveHistory,
    ImportHistory(u16),
    ShowTokenUsage,
    SwitchModel,
    ShowContextSummary,
    CompactContext,
    ExitProcess,
}

/// The mathematical value of an [`Action`]: a message is its characters.
pub enum ActionView {
    Empty,
    Message(Seq<char>),
    ClearContext,
    ShowHelp,
    ShowHistory,
    SaveHistory,
    ImportHistory(u16),
    ShowTokenUsage,
    SwitchModel,
    ShowContextSummary,
    CompactContext,
    ExitProcess,
}

impl View for Action {
    type V = ActionView;

    open spec fn view(&self) -> ActionView {
        match self {
            Action::Empty => ActionView::Empty,
            Action::Message(t) => ActionView::Message(t@),
            Action::ClearContext => ActionView::ClearContext,
            Action::ShowHelp => ActionView::ShowHelp,
            Action::ShowHistory => ActionView::ShowHistory,
            Action::SaveHistory => ActionView::SaveHistory,
            Action::ImportHistory(id) => ActionView::ImportHistory(*id),
            Action::ShowTokenUsage => ActionView::ShowTokenUsage,
            Action::SwitchModel => ActionView::SwitchModel,
            Action::ShowContextSummary => ActionView::ShowContextSummary,
            Action::CompactContext => ActionView::CompactContext,
            Action::ExitProcess => ActionView::ExitProcess,
        }
    }
}

/// Why a line that names a command could not be classified.
#[derive(Debug, Clone, Copy, PartialEq, Eq, Structural)]
pub enum CommandError {
    /// `/import` without an identifier.
    MissingArgument,
    /// `/import` followed by something other than a number in range.
    InvalidArgument,
}

/// Whitespace as Unicode's `White_Space` property defines it, the set that
/// `char::is_whitespace` and `str::trim` use.
pub open spec fn is_space(c: char) -> bool {
    ('\u{9}' <= c && c <= '\u{d}') || c == ' ' || c == '\u{85}' || c == '\u{a0}' || c
        == '\u{1680}' || ('\u{2000}' <= c && c <= '\u{200a}') || c == '\u{2028}' || c
        == '\u{2029}' || c == '\u{202f}' || c == '\u{205f}' || c == '\u{3000}'
}

pub open spec fn trim_start(s: Seq<char>) -> Seq<char>
    decreases s.len(),
{
    if s.len() > 0 && is_space(s[0]) {
        trim_start(s.drop_first())
    } else {
        s
    }
}

pub open spec fn trim_end(s: Seq<char>) -> Seq<char>
    decreases s.len(),
{
    if s.len() > 0 && is_space(s.last()) {
        trim_end(s.drop_last())
    } else {
        s
    }
}

/// The line without the whitespace around it.
pub open spec fn trim(s: Seq<char>) -> Seq<char> {
    trim_end(trim_start(s))
}

pub open spec fn is_digit(c: char) -> bool {
    '0' <= c && c <= '9'
}

pub open spec fn digit_value(c: char) -> nat {
    (c as u32 - '0' as u32) as nat
}

pub open spec fn all_digits(s: Seq<char>) -> bool {
    forall|i: int| 0 <= i < s.len() ==> is_digit(#[trigger] s[i])
}

/// The number that a string of decimal digits denotes.
pub open spec fn digits_value(s: Seq<char>) -> nat
    decreases s.len(),
{
    if s.len() == 0 {
        0
    } else {
        digits_value(s.drop_last()) * 10 + digit_value(s.last())
    }
}

/// An unsigned decimal numeral: an optional `+`, then at least one digit.
pub open spec fn numeral(s: Seq<char>) -> Option<nat> {
    let d = if s.len() > 0 && s[0] == '+' {
        s.drop_first()
    } else {
        s
    };
    if d.len() > 0 && all_digits(d) {
        Some(digits_value(d))
    } else {
        None
    }
}

/// A numeral whose value is at most `max`.
pub open spec fn bounded_numeral(s: Seq<char>, max: nat) -> Option<nat> {
    match numeral(s) {
        Some(n) => if n <= max {
            Some(n)
        } else {
            None
        },
        None => None,
    }
}

/// The command that a whole trimmed line names, if any.
pub open spec fn command_of(t: Seq<char>) -> Option<ActionView> {
    if t == "/help"@ {
        Some(ActionView::ShowHelp)
    } else if t == "/history"@ {
        Some(ActionView::ShowHistory)
    } else if t == "/clear"@ {
        Some(ActionView::ClearContext)
    } else if t == "/save"@ {
        Some(ActionView::SaveHistory)
    } else if t == "/tokens"@ {
        Some(ActionView::ShowTokenUsage)
    } else if t == "/model"@ {
        Some(ActionView::SwitchModel)
    } else if t == "/summary"@ {
        Some(ActionView::ShowContextSummary)
    } else if t == "/compact"@ {
        Some(ActionView::CompactContext)
    } else if t == "/exit"@ {
        Some(ActionView::ExitProcess)
    } else {
        None
    }
}

/// A trimmed line whose first word is `/import`.
pub open spec fn is_import_line(t: Seq<char>) -> bool {
    &&& t.len() >= "/import"@.len()
    &&& t.subrange(0, "/import"@.len() as int) == "/import"@
    &&& (t.len() == "/import"@.len() || is_space(t["/import"@.len() as int]))
}

/// What follows `/import` on a trimmed line, without whitespace.
pub open spec fn import_argument(t: Seq<char>) -> Seq<char> {
    trim(t.subrange("/import"@.len() as int, t.len() as int))
}

/// The classification of one raw line of input.
pub open spec fn classify_spec(raw: Seq<char>) -> Result<ActionView, CommandError> {
    let t = trim(raw);
    if t.len() == 0 {
        Ok(ActionView::Empty)
    } else if is_import_line(t) {
        let arg = import_argument(t);
        if arg.len() == 0 {
            Err(CommandError::MissingArgument)
        } else {
            match bounded_numeral(arg, u16::MAX as nat) {
                Some(id) => Ok(ActionView::ImportHistory(id as u16)),
                None => Err(CommandError::InvalidArgument),
            }
        }
    } else {
        match command_of(t) {
            Some(a) => Ok(a),
            None => Ok(ActionView::Message(t)),
        }
    }
}

proof fn lemma_token_is_not_import(t: Seq<char>, token: Seq<char>)
    requires
        t == token,
        token.len() > 1,
        token.len() < 7 || token[1] != 'i',
    ensures
        !is_import_line(t),
{
    reveal_strlit("/import");
    if t.len() >= 7 {
        assert(t.subrange(0, 7)[1] == t[1]);
    }
}

/// A line that is a command token, once trimmed, is that command; any other
/// line with something besides whitespace, unless its first word is `/import`,
/// is a message holding the line without the whitespace around it.
pub proof fn lemma_classification(raw: Seq<char>)
    ensures
        command_of(trim(raw)) matches Some(a) ==> classify_spec(raw) == Ok::<
            ActionView,
            CommandError,
        >(a),
        trim(raw).len() > 0 && command_of(trim(raw)) is None && !is_import_line(trim(raw))
            ==> classify_spec(raw) == Ok::<ActionView, CommandError>(
            ActionView::Message(trim(raw)),
        ),
{
    let t = trim(raw);
    reveal_strlit("/help");
    reveal_strlit("/history");
    reveal_strlit("/clear");
    reveal_strlit("/save");
    reveal_strlit("/tokens");
    reveal_strlit("/model");
    reveal_strlit("/summary");
    reveal_strlit("/compact");
    reveal_strlit("/exit");
    if t == "/help"@ {
        lemma_token_is_not_import(t, "/help"@);
    } else if t == "/history"@ {
        lemma_token_is_not_import(t, "/history"@);
    } else if t == "/clear"@ {
        lemma_token_is_not_import(t, "/clear"@);
    } else if t == "/save"@ {
        lemma_token_is_not_import(t, "/save"@);
    } else if t == "/tokens"@ {
        lemma_token_is_not_import(t, "/tokens"@);
    } else if t == "/model"@ {
        lemma_token_is_not_import(t, "/model"@);
    } else if t == "/summary"@ {
        lemma_token_is_not_import(t, "/summary"@);
    } else if t == "/compact"@ {
        lemma_token_is_not_import(t, "/compact"@);
    } else if t == "/exit"@ {
        lemma_token_is_not_import(t, "/exit"@);
    }
}

/// The characters of `s`, in order.
pub fn chars_of(s: &str) -> (v: Vec<char>)
    ensures
        v@ == s@,
{
    let n = s.unicode_len();
    let mut v: Vec<char> = Vec::new();
    let mut i: usize = 0;
    while i < n
        invariant
            n == s@.len(),
            i <= n,
            v@ == s@.subrange(0, i as int),
        decreases n - i,
    {
        v.push(s.get_char(i));
        i = i + 1;
    }
    v
}

proof fn lemma_trim_start_step(s: Seq<char>, i: int)
    requires
        0 <= i < s.len(),
        is_space(s[i]),
    ensures
        trim_start(s.subrange(i, s.len() as int)) == trim_start(s.subrange(i + 1, s.len() as int)),
{
    assert(s.subrange(i, s.len() as int).drop_first() =~= s.subrange(i + 1, s.len() as int));
}

proof fn lemma_trim_end_step(s: Seq<char>, lo: int, hi: int)
    requires
        0 <= lo < hi <= s.len(),
        is_space(s[hi - 1]),
    ensures
        trim_end(s.subrange(lo, hi)) == trim_end(s.subrange(lo, hi - 1)),
{
    assert(s.subrange(lo, hi).drop_last() =~= s.subrange(lo, hi - 1));
}

pub fn is_space_char(c: char) -> (r: bool)
    ensures
        r == is_space(c),
{
    ('\u{9}' <= c && c <= '\u{d}') || c == ' ' || c == '\u{85}' || c == '\u{a0}' || c
        == '\u{1680}' || ('\u{2000}' <= c && c <= '\u{200a}') || c == '\u{2028}' || c
        == '\u{2029}' || c == '\u{202f}' || c == '\u{205f}' || c == '\u{3000}'
}

/// The bounds of `v[lo..hi]` without the whitespace around it.
pub fn trim_bounds(v: &Vec<char>, lo: usize, hi: usize) -> (r: (usize, usize))
    requires
        lo <= hi <= v@.len(),
    ensures
        lo <= r.0 <= r.1 <= hi,
        v@.subrange(r.0 as int, r.1 as int) == trim(v@.subrange(lo as int, hi as int)),
{
    let ghost s = v@.subrange(lo as int, hi as int);
    let mut a: usize = lo;
    while a < hi && is_space_char(v[a])
        invariant
            lo <= a <= hi <= v@.len(),
            s == v@.subrange(lo as int, hi as int),
            trim_start(s) == trim_start(v@.subrange(a as int, hi as int)),
        decreases hi - a,
    {
        proof {
            let w = v@.subrange(0, hi as int);
            assert(w.subrange(a as int, hi as int) =~= v@.subrange(a as int, hi as int));
            assert(w.subrange(a + 1, hi as int) =~= v@.subrange(a + 1, hi as int));
            lemma_trim_start_step(w, a as int);
        }
        a = a + 1;
    }
    proof {
        let u = v@.subrange(a as int, hi as int);
        if u.len() > 0 {
            assert(u[0] == v@[a as int]);
        }
        assert(trim_start(u) == u);
    }
    let mut b: usize = hi;
    while b > a && is_space_char(v[b - 1])
        invariant
            lo <= a <= b <= hi <= v@.len(),
            trim_start(s) == v@.subrange(a as int, hi as int),
            trim_end(v@.subrange(a as int, hi as int)) == trim_end(v@.subrange(a as int, b as int)),
        decreases b - a,
    {
        proof {
            lemma_trim_end_step(v@, a as int, b as int);
        }
        b = b - 1;
    }
    proof {
        let u = v@.subrange(a as int, b as int);
        if u.len() > 0 {
            assert(u.last() == v@[b - 1]);
        }
        assert(trim_end(u) == u);
    }
    (a, b)
}

pub fn is_digit_char(c: char) -> (r: bool)
    ensures
        r == is_digit(c),
{
    '0' <= c && c <= '9'
}

proof fn lemma_digits_value_grows(s: Seq<char>, i: int)
    requires
        0 <= i <= s.len(),
        all_digits(s),
    ensures
        digits_value(s.subrange(0, i)) <= digits_value(s),
    decreases s.len() - i,
{
    if i < s.len() {
        lemma_digits_value_grows(s, i + 1);
        let p = s.subrange(0, i + 1);
        assert(p.drop_last() =~= s.subrange(0, i));
        assert(is_digit(s[i]));
    } else {
        assert(s.subrange(0, i) =~= s);
    }
}

/// Reads `v[lo..hi]` as a numeral no greater than `max`.
pub fn parse_bounded(v: &Vec<char>, lo: usize, hi: usize, max: u64) -> (r: Option<u64>)
    requires
        lo <= hi <= v@.len(),
    ensures
        r == (match bounded_numeral(v@.subrange(lo as int, hi as int), max as nat) {
            Some(n) => Some(n as u64),
            None => None::<u64>,
        }),
{
    let ghost s = v@.subrange(lo as int, hi as int);
    let mut start: usize = lo;
    if lo < hi && v[lo] == '+' {
        start = lo + 1;
    }
    let ghost d = v@.subrange(start as int, hi as int);
    proof {
        if lo < hi && v@[lo as int] == '+' {
            assert(s.drop_first() =~= d);
        } else {
            assert(s =~= d);
        }
    }
    if start == hi {
        return None;
    }
    assert(numeral(s) == (if d.len() > 0 && all_digits(d) {
        Some(digits_value(d))
    } else {
        None
    }));
    let mut acc: u128 = 0;
    let mut i: usize = start;
    while i < hi
        invariant
            start <= i <= hi <= v@.len(),
            d == v@.subrange(start as int, hi as int),
            d.len() > 0,
            numeral(v@.subrange(lo as int, hi as int)) == (if all_digits(d) {
                Some(digits_value(d))
            } else {
                None
            }),
            forall|j: int| start <= j < i ==> is_digit(#[trigger] v@[j]),
            acc == digits_value(v@.subrange(start as int, i as int)),
            acc <= max,
        decreases hi - i,
    {
        let c = v[i];
        if !is_digit_char(c) {
            proof {
                assert(d[i - start] == c);
            }
            return None;
        }
        let ghost p = v@.subrange(start as int, i + 1);
        proof {
            assert(p.drop_last() =~= v@.subrange(start as int, i as int));
        }
        acc = acc * 10 + (c as u32 - '0' as u32) as u128;
        if acc > max as u128 {
            proof {
                assert forall|j: int| 0 <= j < i + 1 - start implies is_digit(#[trigger] p[j]) by {
                    assert(p[j] == v@[start + j]);
                }
                if all_digits(d) {
                    assert(d.subrange(0, i + 1 - start) =~= p);
                    lemma_digits_value_grows(d, i + 1 - start);
                }
            }
            return None;
        }
        i = i + 1;
    }
    proof {
        assert(v@.subrange(start as int, i as int) =~= d);
        assert forall|j: int| 0 <= j < d.len() implies is_digit(#[trigger] d[j]) by {
            assert(d[j] == v@[start + j]);
        }
    }
    Some(acc as u64)
}

/// Whether `v[lo..hi]` holds exactly the characters of `lit`.
pub fn span_is(v: &Vec<char>, lo: usize, hi: usize, lit: &str) -> (r: bool)
    requires
        lo <= hi <= v@.len(),
    ensures
        r == (v@.subrange(lo as int, hi as int) == lit@),
{
    let n = lit.unicode_len();
    if hi - lo != n {
        return false;
    }
    let mut i: usize = 0;
    while i < n
        invariant
            n == lit@.len(),
            hi - lo == n,
            lo <= hi <= v@.len(),
            i <= n,
            forall|j: int| 0 <= j < i ==> v@[lo + j] == lit@[j],
        decreases n - i,
    {
        if v[lo + i] != lit.get_char(i) {
            proof {
                assert(v@.subrange(lo as int, hi as int)[i as int] != lit@[i as int]);
            }
            return false;
        }
        i = i + 1;
    }
    assert(v@.subrange(lo as int, hi as int) =~= lit@);
    true
}

/// Classifies one raw line of input.
pub fn classify(raw: &str) -> (r: Result<Action, CommandError>)
    ensures
        match r {
            Ok(a) => classify_spec(raw@) == Ok::<ActionView, CommandError>(a@),
            Err(e) => classify_spec(raw@) == Err::<ActionView, CommandError>(e),
        },
{
    let v = chars_of(raw);
    let n = v.len();
    let (lo, hi) = trim_bounds(&v, 0, n);
    proof {
        assert(v@.subrange(0, n as int) =~= raw@);
    }
    let ghost t = v@.subrange(lo as int, hi as int);
    if lo == hi {
        return Ok(Action::Empty);
    }
    let k = "/import".unicode_len();
    proof {
        reveal_strlit("/import");
    }
    if hi - lo >= k && span_is(&v, lo, lo + k, "/import") && (hi - lo == k || is_space_char(
        v[lo + k],
    )) {
        proof {
            assert(t.subrange(0, k as int) =~= v@.subrange(lo as int, lo + k));
            if hi - lo > k {
                assert(t[k as int] == v@[lo + k]);
            }
            assert(is_import_line(t));
        }
        let (a, b) = trim_bounds(&v, lo + k, hi);
        proof {
            assert(t.subrange(k as int, t.len() as int) =~= v@.subrange(lo + k, hi as int));
        }
        if a == b {
            return Err(CommandError::MissingArgument);
        }
        return match parse_bounded(&v, a, b, 65535) {
            Some(id) => Ok(Action::ImportHistory(id as u16)),
            None => Err(CommandError::InvalidArgument),
        };
    }
    proof {
        if is_import_line(t) {
            assert(t.subrange(0, k as int) =~= v@.subrange(lo as int, lo + k));
            if t.len() > k {
                assert(t[k as int] == v@[lo + k]);
            }
        }
    }
    let action = if span_is(&v, lo, hi, "/help") {
        Action::ShowHelp
    } else if span_is(&v, lo, hi, "/history") {
        Action::ShowHistory
    } else if span_is(&v, lo, hi, "/clear") {
        Action::ClearContext
    } else if span_is(&v, lo, hi, "/save") {
        Action::SaveHistory
    } else if span_is(&v, lo, hi, "/tokens") {
        Action::ShowTokenUsage
    } else if span_is(&v, lo, hi, "/model") {
        Action::SwitchModel
    } else if span_is(&v, lo, hi, "/summary") {
        Action::ShowContextSummary
    } else if span_is(&v, lo, hi, "/compact") {
        Action::CompactContext
    } else if span_is(&v, lo, hi, "/exit") {
        Action::ExitProcess
    } else {
        Action::Message(String::from_str(raw.substring_char(lo, hi)))
    };
    Ok(action)
}

} // verus!
