//! Text handling: white space, trimming, length in characters, and the
//! bounded text types of the library.

use vstd::prelude::*;

verus! {

broadcast use vstd::string::group_string_axioms;

/// Whether a character is white space in the sense of Unicode's
/// `White_Space` property, the set that `char::is_whitespace` tests.
pub open spec fn is_white(c: char) -> bool {
    let n = c as u32;
    (0x09 <= n && n <= 0x0D) || n == 0x20 || n == 0x85 || n == 0xA0 || n == 0x1680 || (0x2000
        <= n && n <= 0x200A) || n == 0x2028 || n == 0x2029 || n == 0x202F || n == 0x205F || n
        == 0x3000
}

/// The text without its leading white space.
pub open spec fn trim_start(s: Seq<char>) -> Seq<char>
    decreases s.len(),
{
    if s.len() > 0 && is_white(s[0]) {
        trim_start(s.drop_first())
    } else {
        s
    }
}

/// The text without its trailing white space.
pub open spec fn trim_end(s: Seq<char>) -> Seq<char>
    decreases s.len(),
{
    if s.len() > 0 && is_white(s.last()) {
        trim_end(s.drop_last())
    } else {
        s
    }
}

/// The text without leading and trailing white space.
pub open spec fn trimmed(s: Seq<char>) -> Seq<char> {
    trim_end(trim_start(s))
}

/// The decimal digit character for a value below 10.
pub open spec fn digit_char(d: nat) -> char {
    ((48 + d) as u8) as char
}

/// The decimal text of a natural number, without leading zeros.
pub open spec fn decimal_text(n: nat) -> Seq<char>
    decreases n,
{
    if n < 10 {
        seq![digit_char(n)]
    } else {
        decimal_text(n / 10).push(digit_char(n % 10))
    }
}

/// Whether a character is white space.
pub fn is_white_char(c: char) -> (b: bool)
    ensures
        b == is_white(c),
{
    let n = c as u32;
    (0x09 <= n && n <= 0x0D) || n == 0x20 || n == 0x85 || n == 0xA0 || n == 0x1680 || (0x2000
        <= n && n <= 0x200A) || n == 0x2028 || n == 0x2029 || n == 0x202F || n == 0x205F || n
        == 0x3000
}

/// The characters of a text, in order.
pub fn chars_of(s: &str) -> (v: Vec<char>)
    ensures
        v@ == s@,
{
    let mut v: Vec<char> = Vec::new();
    for c in it: s.chars()
        invariant
            v@ == it.seq().take(it.index() as int),
    {
        v.push(c);
        assert(v@ =~= it.seq().take(it.index() as int + 1));
    }
    assert(v@ =~= s@);
    v
}

/// Dropping `i` leading white characters does not change the start-trimmed text.
proof fn lemma_trim_start_skip(s: Seq<char>, i: int)
    requires
        0 <= i <= s.len(),
        forall|j: int| 0 <= j < i ==> is_white(s[j]),
    ensures
        trim_start(s) == trim_start(s.subrange(i, s.len() as int)),
    decreases i,
{
    if i > 0 {
        assert(s.drop_first().subrange(i - 1, s.drop_first().len() as int) =~= s.subrange(
            i,
            s.len() as int,
        ));
        lemma_trim_start_skip(s.drop_first(), i - 1);
    } else {
        assert(s.subrange(0, s.len() as int) =~= s);
    }
}

/// Dropping trailing white characters from position `j` on does not change
/// the end-trimmed text.
proof fn lemma_trim_end_cut(s: Seq<char>, j: int)
    requires
        0 <= j <= s.len(),
        forall|k: int| j <= k < s.len() ==> is_white(s[k]),
    ensures
        trim_end(s) == trim_end(s.subrange(0, j)),
    decreases s.len() - j,
{
    if j < s.len() {
        assert(s.drop_last().subrange(0, j) =~= s.subrange(0, j));
        lemma_trim_end_cut(s.drop_last(), j);
    } else {
        assert(s.subrange(0, j) =~= s);
    }
}

/// The text without leading and trailing white space, as `str::trim` gives it.
pub fn trim(s: &str) -> (r: String)
    ensures
        r@ == trimmed(s@),
{
    let v = chars_of(s);
    let n = v.len();
    let mut start: usize = 0;
    while start < n && is_white_char(v[start])
        invariant
            n == v@.len(),
            v@ == s@,
            start <= n,
            forall|j: int| 0 <= j < start ==> is_white(v@[j]),
        decreases n - start,
    {
        start = start + 1;
    }
    proof {
        lemma_trim_start_skip(s@, start as int);
    }
    let ghost rest = s@.subrange(start as int, n as int);
    assert(start == n || !is_white(rest[0]));
    assert(trim_start(rest) == rest) by {
        if rest.len() > 0 {
            assert(!is_white(rest[0]));
        }
    }
    let mut end: usize = n;
    while end > start && is_white_char(v[end - 1])
        invariant
            n == v@.len(),
            v@ == s@,
            start <= end <= n,
            rest == s@.subrange(start as int, n as int),
            forall|k: int| end <= k < n ==> is_white(v@[k]),
        decreases end - start,
    {
        end = end - 1;
    }
    proof {
        let e = (end - start) as int;
        assert forall|k: int| e <= k < rest.len() implies is_white(rest[k]) by {
            assert(rest[k] == v@[k + start]);
        }
        lemma_trim_end_cut(rest, e);
        let cut = rest.subrange(0, e);
        assert(cut =~= s@.subrange(start as int, end as int));
        if cut.len() > 0 {
            assert(cut.last() == v@[end - 1]);
        }
        assert(trim_end(cut) == cut);
    }
    s.substring_char(start, end).to_string()
}

/// Whether a text holds nothing but white space.
pub fn is_blank(s: &str) -> (b: bool)
    ensures
        b == (trimmed(s@).len() == 0),
{
    let t = trim(s);
    t.as_str().unicode_len() == 0
}

/// The length bound that a text breaks.
#[derive(Debug, Clone, Copy, PartialEq, Eq, Structural)]
pub enum LengthViolation {
    /// The text has fewer characters than the smallest accepted length.
    LenCharMinViolated,
    /// The text has more characters than the largest accepted length.
    LenCharMaxViolated,
}

/// OpenTelemetry trace identifier.
/// Holds 1 to 100 characters.
#[derive(Debug)]
pub struct TraceId {
    value: String,
}

impl Clone for TraceId {
    fn clone(&self) -> (r: Self)
        ensures
            r@ == self@,
    {
        proof {
            use_type_invariant(self);
        }
        TraceId { value: self.value.clone() }
    }
}

impl View for TraceId {
    type V = Seq<char>;

    closed spec fn view(&self) -> Seq<char> {
        self.value@
    }
}

impl PartialEq for TraceId {
    fn eq(&self, other: &Self) -> (r: bool) {
        self.value == other.value
    }
}

impl vstd::std_specs::cmp::PartialEqSpecImpl for TraceId {
    open spec fn obeys_eq_spec() -> bool {
        true
    }

    open spec fn eq_spec(&self, other: &Self) -> bool {
        self@ == other@
    }
}

impl TraceId {
    #[verifier::type_invariant]
    closed spec fn in_bounds(self) -> bool {
        1 <= self.value@.len() <= 100
    }

    /// The text that `try_new` keeps of its argument.
    pub open spec fn sanitized(text: Seq<char>) -> Seq<char> {
        text
    }

    /// Whether a text is accepted.
    pub open spec fn accepts(text: Seq<char>) -> bool {
        1 <= Self::sanitized(text).len() <= 100
    }

    /// Creates the value, or reports which length bound the text breaks.
    pub fn try_new(text: String) -> (r: Result<Self, LengthViolation>)
        ensures
            r is Ok <==> Self::accepts(text@),
            r matches Ok(v) ==> v@ == Self::sanitized(text@),
            Self::sanitized(text@).len() < 1 ==> r == Err::<Self, LengthViolation>(LengthViolation::LenCharMinViolated),
            Self::sanitized(text@).len() > 100 ==> r == Err::<Self, LengthViolation>(LengthViolation::LenCharMaxViolated),
    {
        let n = text.as_str().unicode_len();
        if n < 1 {
            return Err(LengthViolation::LenCharMinViolated);
        }
        if n > 100 {
            return Err(LengthViolation::LenCharMaxViolated);
        }
        Ok(TraceId { value: text })
    }

    /// The text.
    pub fn as_str(&self) -> (s: &str)
        ensures
            s@ == self@,
            1 <= s@.len() <= 100,
    {
        proof {
            use_type_invariant(self);
        }
        self.value.as_str()
    }

    /// The text, as an owned string.
    pub fn into_inner(self) -> (s: String)
        ensures
            s@ == self@,
            1 <= s@.len() <= 100,
    {
        proof {
            use_type_invariant(&self);
        }
        self.value
    }

    /// Whether two values hold the same text.
    pub fn same(&self, other: &Self) -> (b: bool)
        ensures
            b == (self@ == other@),
    {
        self.value == other.value
    }
}

/// OpenTelemetry span identifier.
/// Holds 1 to 100 characters.
#[derive(Debug)]
pub struct SpanId {
    value: String,
}

impl Clone for SpanId {
    fn clone(&self) -> (r: Self)
        ensures
            r@ == self@,
    {
        proof {
            use_type_invariant(self);
        }
        SpanId { value: self.value.clone() }
    }
}

impl View for SpanId {
    type V = Seq<char>;

    closed spec fn view(&self) -> Seq<char> {
        self.value@
    }
}

impl PartialEq for SpanId {
    fn eq(&self, other: &Self) -> (r: bool) {
        self.value == other.value
    }
}

impl vstd::std_specs::cmp::PartialEqSpecImpl for SpanId {
    open spec fn obeys_eq_spec() -> bool {
        true
    }

    open spec fn eq_spec(&self, other: &Self) -> bool {
        self@ == other@
    }
}

impl SpanId {
    #[verifier::type_invariant]
    closed spec fn in_bounds(self) -> bool {
        1 <= self.value@.len() <= 100
    }

    /// The text that `try_new` keeps of its argument.
    pub open spec fn sanitized(text: Seq<char>) -> Seq<char> {
        text
    }

    /// Whether a text is accepted.
    pub open spec fn accepts(text: Seq<char>) -> bool {
        1 <= Self::sanitized(text).len() <= 100
    }

    /// Creates the value, or reports which length bound the text breaks.
    pub fn try_new(text: String) -> (r: Result<Self, LengthViolation>)
        ensures
            r is Ok <==> Self::accepts(text@),
            r matches Ok(v) ==> v@ == Self::sanitized(text@),
            Self::sanitized(text@).len() < 1 ==> r == Err::<Self, LengthViolation>(LengthViolation::LenCharMinViolated),
            Self::sanitized(text@).len() > 100 ==> r == Err::<Self, LengthViolation>(LengthViolation::LenCharMaxViolated),
    {
        let n = text.as_str().unicode_len();
        if n < 1 {
            return Err(LengthViolation::LenCharMinViolated);
        }
        if n > 100 {
            return Err(LengthViolation::LenCharMaxViolated);
        }
        Ok(SpanId { value: text })
    }

    /// The text.
    pub fn as_str(&self) -> (s: &str)
        ensures
            s@ == self@,
            1 <= s@.len() <= 100,
    {
        proof {
            use_type_invariant(self);
        }
        self.value.as_str()
    }

    /// The text, as an owned string.
    pub fn into_inner(self) -> (s: String)
        ensures
            s@ == self@,
            1 <= s@.len() <= 100,
    {
        proof {
            use_type_invariant(&self);
        }
        self.value
    }

    /// Whether two values hold the same text.
    pub fn same(&self, other: &Self) -> (b: bool)
        ensures
            b == (self@ == other@),
    {
        self.value == other.value
    }
}

/// Name of an agent capability.
/// Holds 1 to 100 characters.
#[derive(Debug)]
pub struct CapabilityName {
    value: String,
}

impl Clone for CapabilityName {
    fn clone(&self) -> (r: Self)
        ensures
            r@ == self@,
    {
        proof {
            use_type_invariant(self);
        }
        CapabilityName { value: self.value.clone() }
    }
}

impl View for CapabilityName {
    type V = Seq<char>;

    closed spec fn view(&self) -> Seq<char> {
        self.value@
    }
}

impl PartialEq for CapabilityName {
    fn eq(&self, other: &Self) -> (r: bool) {
        self.value == other.value
    }
}

impl vstd::std_specs::cmp::PartialEqSpecImpl for CapabilityName {
    open spec fn obeys_eq_spec() -> bool {
        true
    }

    open spec fn eq_spec(&self, other: &Self) -> bool {
        self@ == other@
    }
}

impl CapabilityName {
    #[verifier::type_invariant]
    closed spec fn in_bounds(self) -> bool {
        1 <= self.value@.len() <= 100
    }

    /// The text that `try_new` keeps of its argument.
    pub open spec fn sanitized(text: Seq<char>) -> Seq<char> {
        text
    }

    /// Whether a text is accepted.
    pub open spec fn accepts(text: Seq<char>) -> bool {
        1 <= Self::sanitized(text).len() <= 100
    }

    /// Creates the value, or reports which length bound the text breaks.
    pub fn try_new(text: String) -> (r: Result<Self, LengthViolation>)
        ensures
            r is Ok <==> Self::accepts(text@),
            r matches Ok(v) ==> v@ == Self::sanitized(text@),
            Self::sanitized(text@).len() < 1 ==> r == Err::<Self, LengthViolation>(LengthViolation::LenCharMinViolated),
            Self::sanitized(text@).len() > 100 ==> r == Err::<Self, LengthViolation>(LengthViolation::LenCharMaxViolated),
    {
        let n = text.as_str().unicode_len();
        if n < 1 {
            return Err(LengthViolation::LenCharMinViolated);
        }
        if n > 100 {
            return Err(LengthViolation::LenCharMaxViolated);
        }
        Ok(CapabilityName { value: text })
    }

    /// The text.
    pub fn as_str(&self) -> (s: &str)
        ensures
            s@ == self@,
            1 <= s@.len() <= 100,
    {
        proof {
            use_type_invariant(self);
        }
        self.value.as_str()
    }

    /// The text, as an owned string.
    pub fn into_inner(self) -> (s: String)
        ensures
            s@ == self@,
            1 <= s@.len() <= 100,
    {
        proof {
            use_type_invariant(&self);
        }
        self.value
    }

    /// Whether two values hold the same text.
    pub fn same(&self, other: &Self) -> (b: bool)
        ensures
            b == (self@ == other@),
    {
        self.value == other.value
    }
}

/// Description of an agent capability.
/// Holds 1 to 1000 characters.
#[derive(Debug)]
pub struct CapabilityDescription {
    value: String,
}

impl Clone for CapabilityDescription {
    fn clone(&self) -> (r: Self)
        ensures
            r@ == self@,
    {
        proof {
            use_type_invariant(self);
        }
        CapabilityDescription { value: self.value.clone() }
    }
}

impl View for CapabilityDescription {
    type V = Seq<char>;

    closed spec fn view(&self) -> Seq<char> {
        self.value@
    }
}

impl PartialEq for CapabilityDescription {
    fn eq(&self, other: &Self) -> (r: bool) {
        self.value == other.value
    }
}

impl vstd::std_specs::cmp::PartialEqSpecImpl for CapabilityDescription {
    open spec fn obeys_eq_spec() -> bool {
        true
    }

    open spec fn eq_spec(&self, other: &Self) -> bool {
        self@ == other@
    }
}

impl CapabilityDescription {
    #[verifier::type_invariant]
    closed spec fn in_bounds(self) -> bool {
        1 <= self.value@.len() <= 1000
    }

    /// The text that `try_new` keeps of its argument.
    pub open spec fn sanitized(text: Seq<char>) -> Seq<char> {
        text
    }

    /// Whether a text is accepted.
    pub open spec fn accepts(text: Seq<char>) -> bool {
        1 <= Self::sanitized(text).len() <= 1000
    }

    /// Creates the value, or reports which length bound the text breaks.
    pub fn try_new(text: String) -> (r: Result<Self, LengthViolation>)
        ensures
            r is Ok <==> Self::accepts(text@),
            r matches Ok(v) ==> v@ == Self::sanitized(text@),
            Self::sanitized(text@).len() < 1 ==> r == Err::<Self, LengthViolation>(LengthViolation::LenCharMinViolated),
            Self::sanitized(text@).len() > 1000 ==> r == Err::<Self, LengthViolation>(LengthViolation::LenCharMaxViolated),
    {
        let n = text.as_str().unicode_len();
        if n < 1 {
            return Err(LengthViolation::LenCharMinViolated);
        }
        if n > 1000 {
            return Err(LengthViolation::LenCharMaxViolated);
        }
        Ok(CapabilityDescription { value: text })
    }

    /// The text.
    pub fn as_str(&self) -> (s: &str)
        ensures
            s@ == self@,
            1 <= s@.len() <= 1000,
    {
        proof {
            use_type_invariant(self);
        }
        self.value.as_str()
    }

    /// The text, as an owned string.
    pub fn into_inner(self) -> (s: String)
        ensures
            s@ == self@,
            1 <= s@.len() <= 1000,
    {
        proof {
            use_type_invariant(&self);
        }
        self.value
    }

    /// Whether two values hold the same text.
    pub fn same(&self, other: &Self) -> (b: bool)
        ensures
            b == (self@ == other@),
    {
        self.value == other.value
    }
}

/// Name of the field that a validation error is about.
/// Holds 1 to 50 characters. Surrounding white space is removed first.
#[derive(Debug)]
pub struct ValidationField {
    value: String,
}

impl Clone for ValidationField {
    fn clone(&self) -> (r: Self)
        ensures
            r@ == self@,
    {
        proof {
            use_type_invariant(self);
        }
        ValidationField { value: self.value.clone() }
    }
}

impl View for ValidationField {
    type V = Seq<char>;

    closed spec fn view(&self) -> Seq<char> {
        self.value@
    }
}

impl PartialEq for ValidationField {
    fn eq(&self, other: &Self) -> (r: bool) {
        self.value == other.value
    }
}

impl vstd::std_specs::cmp::PartialEqSpecImpl for ValidationField {
    open spec fn obeys_eq_spec() -> bool {
        true
    }

    open spec fn eq_spec(&self, other: &Self) -> bool {
        self@ == other@
    }
}

impl ValidationField {
    #[verifier::type_invariant]
    closed spec fn in_bounds(self) -> bool {
        1 <= self.value@.len() <= 50
    }

    /// The text that `try_new` keeps of its argument.
    pub open spec fn sanitized(text: Seq<char>) -> Seq<char> {
        trimmed(text)
    }

    /// Whether a text is accepted.
    pub open spec fn accepts(text: Seq<char>) -> bool {
        1 <= Self::sanitized(text).len() <= 50
    }

    /// Creates the value, or reports which length bound the text breaks.
    pub fn try_new(text: String) -> (r: Result<Self, LengthViolation>)
        ensures
            r is Ok <==> Self::accepts(text@),
            r matches Ok(v) ==> v@ == Self::sanitized(text@),
            Self::sanitized(text@).len() < 1 ==> r == Err::<Self, LengthViolation>(LengthViolation::LenCharMinViolated),
            Self::sanitized(text@).len() > 50 ==> r == Err::<Self, LengthViolation>(LengthViolation::LenCharMaxViolated),
    {
        let kept = trim(text.as_str());
        let n = kept.unicode_len();
        if n < 1 {
            return Err(LengthViolation::LenCharMinViolated);
        }
        if n > 50 {
            return Err(LengthViolation::LenCharMaxViolated);
        }
        Ok(ValidationField { value: kept })
    }

    /// The text.
    pub fn as_str(&self) -> (s: &str)
        ensures
            s@ == self@,
            1 <= s@.len() <= 50,
    {
        proof {
            use_type_invariant(self);
        }
        self.value.as_str()
    }

    /// The text, as an owned string.
    pub fn into_inner(self) -> (s: String)
        ensures
            s@ == self@,
            1 <= s@.len() <= 50,
    {
        proof {
            use_type_invariant(&self);
        }
        self.value
    }

    /// Whether two values hold the same text.
    pub fn same(&self, other: &Self) -> (b: bool)
        ensures
            b == (self@ == other@),
    {
        self.value == other.value
    }
}

/// Reason that a validation error gives.
/// Holds 1 to 200 characters. Surrounding white space is removed first.
#[derive(Debug)]
pub struct ValidationReason {
    value: String,
}

impl Clone for ValidationReason {
    fn clone(&self) -> (r: Self)
        ensures
            r@ == self@,
    {
        proof {
            use_type_invariant(self);
        }
        ValidationReason { value: self.value.clone() }
    }
}

impl View for ValidationReason {
    type V = Seq<char>;

    closed spec fn view(&self) -> Seq<char> {
        self.value@
    }
}

impl PartialEq for ValidationReason {
    fn eq(&self, other: &Self) -> (r: bool) {
        self.value == other.value
    }
}

impl vstd::std_specs::cmp::PartialEqSpecImpl for ValidationReason {
    open spec fn obeys_eq_spec() -> bool {
        true
    }

    open spec fn eq_spec(&self, other: &Self) -> bool {
        self@ == other@
    }
}

impl ValidationReason {
    #[verifier::type_invariant]
    closed spec fn in_bounds(self) -> bool {
        1 <= self.value@.len() <= 200
    }

    /// The text that `try_new` keeps of its argument.
    pub open spec fn sanitized(text: Seq<char>) -> Seq<char> {
        trimmed(text)
    }

    /// Whether a text is accepted.
    pub open spec fn accepts(text: Seq<char>) -> bool {
        1 <= Self::sanitized(text).len() <= 200
    }

    /// Creates the value, or reports which length bound the text breaks.
    pub fn try_new(text: String) -> (r: Result<Self, LengthViolation>)
        ensures
            r is Ok <==> Self::accepts(text@),
            r matches Ok(v) ==> v@ == Self::sanitized(text@),
            Self::sanitized(text@).len() < 1 ==> r == Err::<Self, LengthViolation>(LengthViolation::LenCharMinViolated),
            Self::sanitized(text@).len() > 200 ==> r == Err::<Self, LengthViolation>(LengthViolation::LenCharMaxViolated),
    {
        let kept = trim(text.as_str());
        let n = kept.unicode_len();
        if n < 1 {
            return Err(LengthViolation::LenCharMinViolated);
        }
        if n > 200 {
            return Err(LengthViolation::LenCharMaxViolated);
        }
        Ok(ValidationReason { value: kept })
    }

    /// The text.
    pub fn as_str(&self) -> (s: &str)
        ensures
            s@ == self@,
            1 <= s@.len() <= 200,
    {
        proof {
            use_type_invariant(self);
        }
        self.value.as_str()
    }

    /// The text, as an owned string.
    pub fn into_inner(self) -> (s: String)
        ensures
            s@ == self@,
            1 <= s@.len() <= 200,
    {
        proof {
            use_type_invariant(&self);
        }
        self.value
    }

    /// Whether two values hold the same text.
    pub fn same(&self, other: &Self) -> (b: bool)
        ensures
            b == (self@ == other@),
    {
        self.value == other.value
    }
}

/// Name of an agent.
/// Holds 1 to 255 characters.
#[derive(Debug)]
pub struct AgentName {
    value: String,
}

impl Clone for AgentName {
    fn clone(&self) -> (r: Self)
        ensures
            r@ == self@,
    {
        proof {
            use_type_invariant(self);
        }
        AgentName { value: self.value.clone() }
    }
}

impl View for AgentName {
    type V = Seq<char>;

    closed spec fn view(&self) -> Seq<char> {
        self.value@
    }
}

impl PartialEq for AgentName {
    fn eq(&self, other: &Self) -> (r: bool) {
        self.value == other.value
    }
}

impl vstd::std_specs::cmp::PartialEqSpecImpl for AgentName {
    open spec fn obeys_eq_spec() -> bool {
        true
    }

    open spec fn eq_spec(&self, other: &Self) -> bool {
        self@ == other@
    }
}

impl AgentName {
    #[verifier::type_invariant]
    closed spec fn in_bounds(self) -> bool {
        1 <= self.value@.len() <= 255
    }

    /// The text that `try_new` keeps of its argument.
    pub open spec fn sanitized(text: Seq<char>) -> Seq<char> {
        text
    }

    /// Whether a text is accepted.
    pub open spec fn accepts(text: Seq<char>) -> bool {
        1 <= Self::sanitized(text).len() <= 255
    }

    /// Creates the value, or reports which length bound the text breaks.
    pub fn try_new(text: String) -> (r: Result<Self, LengthViolation>)
        ensures
            r is Ok <==> Self::accepts(text@),
            r matches Ok(v) ==> v@ == Self::sanitized(text@),
            Self::sanitized(text@).len() < 1 ==> r == Err::<Self, LengthViolation>(LengthViolation::LenCharMinViolated),
            Self::sanitized(text@).len() > 255 ==> r == Err::<Self, LengthViolation>(LengthViolation::LenCharMaxViolated),
    {
        let n = text.as_str().unicode_len();
        if n < 1 {
            return Err(LengthViolation::LenCharMinViolated);
        }
        if n > 255 {
            return Err(LengthViolation::LenCharMaxViolated);
        }
        Ok(AgentName { value: text })
    }

    /// The text.
    pub fn as_str(&self) -> (s: &str)
        ensures
            s@ == self@,
            1 <= s@.len() <= 255,
    {
        proof {
            use_type_invariant(self);
        }
        self.value.as_str()
    }

    /// The text, as an owned string.
    pub fn into_inner(self) -> (s: String)
        ensures
            s@ == self@,
            1 <= s@.len() <= 255,
    {
        proof {
            use_type_invariant(&self);
        }
        self.value
    }

    /// Whether two values hold the same text.
    pub fn same(&self, other: &Self) -> (b: bool)
        ensures
            b == (self@ == other@),
    {
        self.value == other.value
    }
}

/// Name of a host function that agents may import.
/// Holds 1 to 100 characters.
#[derive(Debug)]
pub struct HostFunctionName {
    value: String,
}

impl Clone for HostFunctionName {
    fn clone(&self) -> (r: Self)
        ensures
            r@ == self@,
    {
        proof {
            use_type_invariant(self);
        }
        HostFunctionName { value: self.value.clone() }
    }
}

impl View for HostFunctionName {
    type V = Seq<char>;

    closed spec fn view(&self) -> Seq<char> {
        self.value@
    }
}

impl PartialEq for HostFunctionName {
    fn eq(&self, other: &Self) -> (r: bool) {
        self.value == other.value
    }
}

impl vstd::std_specs::cmp::PartialEqSpecImpl for HostFunctionName {
    open spec fn obeys_eq_spec() -> bool {
        true
    }

    open spec fn eq_spec(&self, other: &Self) -> bool {
        self@ == other@
    }
}

impl HostFunctionName {
    #[verifier::type_invariant]
    closed spec fn in_bounds(self) -> bool {
        1 <= self.value@.len() <= 100
    }

    /// The text that `try_new` keeps of its argument.
    pub open spec fn sanitized(text: Seq<char>) -> Seq<char> {
        text
    }

    /// Whether a text is accepted.
    pub open spec fn accepts(text: Seq<char>) -> bool {
        1 <= Self::sanitized(text).len() <= 100
    }

    /// Creates the value, or reports which length bound the text breaks.
    pub fn try_new(text: String) -> (r: Result<Self, LengthViolation>)
        ensures
            r is Ok <==> Self::accepts(text@),
            r matches Ok(v) ==> v@ == Self::sanitized(text@),
            Self::sanitized(text@).len() < 1 ==> r == Err::<Self, LengthViolation>(LengthViolation::LenCharMinViolated),
            Self::sanitized(text@).len() > 100 ==> r == Err::<Self, LengthViolation>(LengthViolation::LenCharMaxViolated),
    {
        let n = text.as_str().unicode_len();
        if n < 1 {
            return Err(LengthViolation::LenCharMinViolated);
        }
        if n > 100 {
            return Err(LengthViolation::LenCharMaxViolated);
        }
        Ok(HostFunctionName { value: text })
    }

    /// The text.
    pub fn as_str(&self) -> (s: &str)
        ensures
            s@ == self@,
            1 <= s@.len() <= 100,
    {
        proof {
            use_type_invariant(self);
        }
        self.value.as_str()
    }

    /// The text, as an owned string.
    pub fn into_inner(self) -> (s: String)
        ensures
            s@ == self@,
            1 <= s@.len() <= 100,
    {
        proof {
            use_type_invariant(&self);
        }
        self.value
    }

    /// Whether two values hold the same text.
    pub fn same(&self, other: &Self) -> (b: bool)
        ensures
            b == (self@ == other@),
    {
        self.value == other.value
    }
}

} // verus!
