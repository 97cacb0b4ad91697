//! Host-side symbols and the name-resolution subsystem.

use vstd::prelude::*;
use vstd::string::StrSliceExecFns;
use vstd::string::StringExecFns;

use crate::ser::serializer::char_text;

verus! {

/// Is this the text of a bare identifier: an alphabetic first character,
/// and nothing but alphanumerics and underscores after it?
pub open spec fn is_bare_ident(t: Seq<char>) -> bool {
    &&& t.len() > 0
    &&& is_alpha_char(t[0])
    &&& forall|i: int| 0 <= i < t.len() ==> is_ident_char(#[trigger] t[i])
}

pub open spec fn is_alpha_char(c: char) -> bool {
    ||| 'a' as u32 <= c as u32 <= 'z' as u32
    ||| 'A' as u32 <= c as u32 <= 'Z' as u32
}

pub open spec fn is_ident_char(c: char) -> bool {
    ||| is_alpha_char(c)
    ||| '0' as u32 <= c as u32 <= '9' as u32
    ||| c == '_'
}

/// The hexadecimal digit characters, lower case.
pub open spec fn hex_digit(d: int) -> char {
    if d == 0 {
        '0'
    } else if d == 1 {
        '1'
    } else if d == 2 {
        '2'
    } else if d == 3 {
        '3'
    } else if d == 4 {
        '4'
    } else if d == 5 {
        '5'
    } else if d == 6 {
        '6'
    } else if d == 7 {
        '7'
    } else if d == 8 {
        '8'
    } else if d == 9 {
        '9'
    } else if d == 10 {
        'a'
    } else if d == 11 {
        'b'
    } else if d == 12 {
        'c'
    } else if d == 13 {
        'd'
    } else if d == 14 {
        'e'
    } else {
        'f'
    }
}

/// The hexadecimal rendering of a nonnegative integer, most significant
/// digit first, without leading zeros.
pub open spec fn hex_of(n: int) -> Seq<char>
    decreases n,
{
    if n < 16 {
        seq![hex_digit(n)]
    } else {
        hex_of(n / 16).push(hex_digit(n % 16))
    }
}

/// One character of symbol text, escaped for display: the named escapes
/// for tab, carriage return, line feed, backslash and both quotes;
/// printable ASCII as itself; and everything else as a braced lower-case
/// hexadecimal code-point escape.
pub open spec fn escape_char(c: char) -> Seq<char> {
    if c == '\t' {
        seq!['\\', 't']
    } else if c == '\r' {
        seq!['\\', 'r']
    } else if c == '\n' {
        seq!['\\', 'n']
    } else if c == '\\' {
        seq!['\\', '\\']
    } else if c == '\'' {
        seq!['\\', '\'']
    } else if c == '"' {
        seq!['\\', '"']
    } else if ' ' as u32 <= c as u32 <= '~' as u32 {
        seq![c]
    } else {
        seq!['\\', 'u', '{'] + hex_of(c as u32 as int) + seq!['}']
    }
}

/// Symbol text escaped for display, character for character.
pub open spec fn escaped(t: Seq<char>) -> Seq<char>
    decreases t.len(),
{
    if t.len() == 0 {
        Seq::empty()
    } else {
        escape_char(t[0]) + escaped(t.drop_first())
    }
}

/// Escaping one more character at the end appends its escape.
pub proof fn lemma_escaped_snoc(t: Seq<char>, c: char)
    ensures
        escaped(t.push(c)) == escaped(t) + escape_char(c),
    decreases t.len(),
{
    if t.len() == 0 {
        assert(t.push(c)[0] == c);
        assert(t.push(c).drop_first() =~= Seq::<char>::empty());
        assert(escaped(Seq::<char>::empty()) =~= Seq::<char>::empty());
        assert(escaped(t.push(c)) =~= escape_char(c) + escaped(Seq::<char>::empty()));
        assert(escaped(t.push(c)) =~= escape_char(c));
        assert(escaped(t) + escape_char(c) =~= escape_char(c));
    } else {
        assert(t.push(c)[0] == t[0]);
        assert(t.push(c).drop_first() =~= t.drop_first().push(c));
        lemma_escaped_snoc(t.drop_first(), c);
        assert(escape_char(t[0]) + (escaped(t.drop_first()) + escape_char(c)) =~= (escape_char(
            t[0],
        ) + escaped(t.drop_first())) + escape_char(c));
    }
}

/// The display form of a symbol: a leading colon and the bare text for a
/// bare identifier; otherwise the text, escaped, wrapped in quotes.
pub open spec fn symbol_display(t: Seq<char>) -> Seq<char> {
    if is_bare_ident(t) {
        seq![':'] + t
    } else {
        seq![':', '"'] + escaped(t) + seq!['"']
    }
}

/// One hexadecimal digit as a character.
fn hex_digit_char(d: u32) -> (c: char)
    requires
        d < 16,
    ensures
        c == hex_digit(d as int),
{
    match d {
        0 => '0',
        1 => '1',
        2 => '2',
        3 => '3',
        4 => '4',
        5 => '5',
        6 => '6',
        7 => '7',
        8 => '8',
        9 => '9',
        10 => 'a',
        11 => 'b',
        12 => 'c',
        13 => 'd',
        14 => 'e',
        _ => 'f',
    }
}

/// Render a code point in hexadecimal, most significant digit first.
fn hex_text(n: u32) -> (r: String)
    ensures
        r@ == hex_of(n as int),
    decreases n,
{
    if n < 16 {
        char_text(hex_digit_char(n))
    } else {
        let mut r = hex_text(n / 16);
        let digit = char_text(hex_digit_char(n % 16));
        r.append(digit.as_str());
        proof {
            assert((n / 16) as int == n as int / 16);
            assert((n % 16) as int == n as int % 16);
            assert(r@ =~= hex_of(n as int / 16).push(hex_digit(n as int % 16)));
        }
        r
    }
}

/// Render one character of symbol text, escaped for display.
fn escape_char_text(c: char) -> (r: String)
    ensures
        r@ == escape_char(c),
{
    let u = c as u32;
    if c == '\t' {
        let r = String::from_str("\\t");
        proof {
            reveal_strlit("\\t");
            assert(r@ =~= seq!['\\', 't']);
        }
        r
    } else if c == '\r' {
        let r = String::from_str("\\r");
        proof {
            reveal_strlit("\\r");
            assert(r@ =~= seq!['\\', 'r']);
        }
        r
    } else if c == '\n' {
        let r = String::from_str("\\n");
        proof {
            reveal_strlit("\\n");
            assert(r@ =~= seq!['\\', 'n']);
        }
        r
    } else if c == '\\' {
        let r = String::from_str("\\\\");
        proof {
            reveal_strlit("\\\\");
            assert(r@ =~= seq!['\\', '\\']);
        }
        r
    } else if c == '\'' {
        let r = String::from_str("\\'");
        proof {
            reveal_strlit("\\'");
            assert(r@ =~= seq!['\\', '\'']);
        }
        r
    } else if c == '"' {
        let r = String::from_str("\\\"");
        proof {
            reveal_strlit("\\\"");
            assert(r@ =~= seq!['\\', '"']);
        }
        r
    } else if u >= ' ' as u32 && u <= '~' as u32 {
        char_text(c)
    } else {
        let mut out = String::from_str("\\u{");
        let digits = hex_text(u);
        out.append(digits.as_str());
        out.append("}");
        proof {
            reveal_strlit("\\u{");
            reveal_strlit("}");
            assert(out@ =~= escape_char(c));
        }
        out
    }
}

/// A host-side owned name standing for a runtime symbol. Equality and
/// ordering go by the underlying text.
#[derive(Clone, Debug, Eq, Hash, Ord, PartialEq, PartialOrd)]
pub struct Symbol(String);

impl View for Symbol {
    type V = Seq<char>;

    closed spec fn view(&self) -> Seq<char> {
        self.0@
    }
}

impl Symbol {
    /// Wrap a name as a symbol.
    pub fn new(name: &str) -> (s: Symbol)
        ensures
            s@ == name@,
    {
        Symbol(name.to_owned())
    }

    /// Borrow the symbol's text.
    pub fn text(&self) -> (r: &str)
        ensures
            r@ == self@,
    {
        self.0.as_str()
    }

    /// An owned copy of this symbol.
    pub fn clone_symbol(&self) -> (s: Symbol)
        ensures
            s@ == self@,
    {
        Symbol(self.0.clone())
    }

    /// Render the symbol the way the runtime prints it: `:name` for a
    /// bare identifier, the text in quotes otherwise.
    pub fn display_string(&self) -> (r: String)
        ensures
            r@ == symbol_display(self@),
    {
        let text = self.0.as_str();
        let n = text.unicode_len();
        let mut bare = n > 0;
        if bare {
            let c0 = text.get_char(0);
            let u0 = c0 as u32;
            bare = (u0 >= 'a' as u32 && u0 <= 'z' as u32) || (u0 >= 'A' as u32 && u0 <= 'Z'
                as u32);
        }
        proof {
            if !bare {
                assert(!is_bare_ident(text@));
            }
        }
        if bare {
            for i in 0..n
                invariant
                    n == text@.len(),
                    bare ==> forall|j: int| 0 <= j < i ==> is_ident_char(#[trigger] text@[j]),
                    !bare ==> !is_bare_ident(text@),
            {
                if bare {
                    let c = text.get_char(i);
                    let u = c as u32;
                    let ok = (u >= 'a' as u32 && u <= 'z' as u32) || (u >= 'A' as u32 && u <= 'Z'
                        as u32) || (u >= '0' as u32 && u <= '9' as u32) || c == '_';
                    if !ok {
                        bare = false;
                    }
                }
            }
        }
        if bare {
            let mut out = String::from_str(":");
            out.append(text);
            proof {
                reveal_strlit(":");
                assert(out@ =~= symbol_display(self@));
            }
            out
        } else {
            let mut out = String::from_str(":\"");
            proof {
                reveal_strlit(":\"");
                assert(out@ =~= seq![':', '"']);
                assert(text@.take(0) =~= Seq::<char>::empty());
            }
            for i in 0..n
                invariant
                    n == text@.len(),
                    out@ == seq![':', '"'] + escaped(text@.take(i as int)),
            {
                let c = text.get_char(i);
                let piece = escape_char_text(c);
                out.append(piece.as_str());
                proof {
                    lemma_escaped_snoc(text@.take(i as int), c);
                    assert(text@.take(i + 1) =~= text@.take(i as int).push(c));
                    assert(out@ =~= seq![':', '"'] + escaped(text@.take(i + 1)));
                }
            }
            out.append("\"");
            proof {
                reveal_strlit("\"");
                assert(text@.take(n as int) =~= text@);
                assert(!is_bare_ident(self@));
                assert(out@ =~= symbol_display(self@));
            }
            out
        }
    }
}

/// The failure of resolving an interned name against a finite name set;
/// carries the text that did not resolve.
#[derive(Clone, Debug, Eq, Hash, PartialEq)]
pub struct InvalidSymbolError(String);

impl View for InvalidSymbolError {
    type V = Seq<char>;

    closed spec fn view(&self) -> Seq<char> {
        self.0@
    }
}

impl InvalidSymbolError {
    /// Record the text that failed to resolve.
    pub fn new(value: &str) -> (e: InvalidSymbolError)
        ensures
            e@ == value@,
    {
        InvalidSymbolError(value.to_owned())
    }

    /// Render the failure for a diagnostic.
    pub fn message(&self) -> (r: String)
        ensures
            r@ == "`"@ + self@ + "` is not a recognized symbol"@,
    {
        let mut out = String::from_str("`");
        out.append(self.0.as_str());
        out.append("` is not a recognized symbol");
        out
    }
}

/// The capability of a host type to be resolved from a runtime symbol's
/// interned name: a finite (or universal) name set, and the datum of the
/// host value each name resolves to.
pub trait FromSymbol: crate::value::ValueModel + Sized {
    /// Which names resolve, and to the datum of which host value.
    spec fn resolve_spec(t: Seq<char>) -> Option<crate::value::Datum>;

    /// Resolve one name; unmatched text fails, carrying that text.
    fn from_name(s: &str) -> (r: Result<Self, InvalidSymbolError>)
        ensures
            match r {
                Ok(x) => Self::resolve_spec(s@) == Some(x.datum()),
                Err(e) => Self::resolve_spec(s@) is None && e@ == s@,
            },
    ;
}

impl FromSymbol for Symbol {
    open spec fn resolve_spec(t: Seq<char>) -> Option<crate::value::Datum> {
        Some(crate::value::Datum::Sym(t))
    }

    fn from_name(s: &str) -> (r: Result<Self, InvalidSymbolError>) {
        Ok(Symbol::new(s))
    }
}

impl FromSymbol for String {
    open spec fn resolve_spec(t: Seq<char>) -> Option<crate::value::Datum> {
        Some(crate::value::Datum::Str(t))
    }

    fn from_name(s: &str) -> (r: Result<Self, InvalidSymbolError>) {
        Ok(s.to_owned())
    }
}

/// The capability of a host value to name a runtime symbol: a host
/// value that exposes symbol text.
pub trait ToSymbol {
    /// The text this value interns as.
    spec fn name_spec(&self) -> Seq<char>;

    /// Borrow the symbol text.
    fn as_str(&self) -> (r: &str)
        ensures
            r@ == self.name_spec(),
    ;

    /// Wrap the text as an owned symbol.
    fn to_symbol(&self) -> (s: Symbol)
        ensures
            s@ == self.name_spec(),
    ;
}

impl ToSymbol for Symbol {
    open spec fn name_spec(&self) -> Seq<char> {
        self@
    }

    fn as_str(&self) -> (r: &str) {
        self.text()
    }

    fn to_symbol(&self) -> (s: Symbol) {
        self.clone_symbol()
    }
}

impl ToSymbol for str {
    open spec fn name_spec(&self) -> Seq<char> {
        self@
    }

    fn as_str(&self) -> (r: &str) {
        self
    }

    fn to_symbol(&self) -> (s: Symbol) {
        Symbol::new(self)
    }
}

impl ToSymbol for String {
    open spec fn name_spec(&self) -> Seq<char> {
        self@
    }

    fn as_str(&self) -> (r: &str) {
        String::as_str(self)
    }

    fn to_symbol(&self) -> (s: Symbol) {
        Symbol::new(String::as_str(self))
    }
}

pub uninterp spec fn lower_camel_of(s: Seq<char>) -> Seq<char>;

pub uninterp spec fn upper_camel_of(s: Seq<char>) -> Seq<char>;

pub uninterp spec fn kebab_of(s: Seq<char>) -> Seq<char>;

pub uninterp spec fn shouty_snake_of(s: Seq<char>) -> Seq<char>;

pub uninterp spec fn snake_of(s: Seq<char>) -> Seq<char>;

pub uninterp spec fn title_of(s: Seq<char>) -> Seq<char>;

pub uninterp spec fn lower_of(s: Seq<char>) -> Seq<char>;

pub uninterp spec fn upper_of(s: Seq<char>) -> Seq<char>;

/// Relies on heck's `ToLowerCamelCase` for `str`: the result is a
/// function of the input text alone.
#[verifier::external_body]
fn to_lower_camel(s: &str) -> (r: String)
    ensures
        r@ == lower_camel_of(s@),
{
    heck::ToLowerCamelCase::to_lower_camel_case(s)
}

/// Relies on heck's `ToUpperCamelCase` for `str`: the result is a
/// function of the input text alone.
#[verifier::external_body]
fn to_upper_camel(s: &str) -> (r: String)
    ensures
        r@ == upper_camel_of(s@),
{
    heck::ToUpperCamelCase::to_upper_camel_case(s)
}

/// Relies on heck's `ToKebabCase` for `str`: the result is a function of
/// the input text alone.
#[verifier::external_body]
fn to_kebab(s: &str) -> (r: String)
    ensures
        r@ == kebab_of(s@),
{
    heck::ToKebabCase::to_kebab_case(s)
}

/// Relies on heck's `ToShoutySnakeCase` for `str`: the result is a
/// function of the input text alone.
#[verifier::external_body]
fn to_shouty_snake(s: &str) -> (r: String)
    ensures
        r@ == shouty_snake_of(s@),
{
    heck::ToShoutySnakeCase::to_shouty_snake_case(s)
}

/// Relies on heck's `ToSnakeCase` for `str`: the result is a function of
/// the input text alone.
#[verifier::external_body]
fn to_snake(s: &str) -> (r: String)
    ensures
        r@ == snake_of(s@),
{
    heck::ToSnakeCase::to_snake_case(s)
}

/// Relies on heck's `ToTitleCase` for `str`: the result is a function of
/// the input text alone.
#[verifier::external_body]
fn to_title(s: &str) -> (r: String)
    ensures
        r@ == title_of(s@),
{
    heck::ToTitleCase::to_title_case(s)
}

/// Relies on `str::to_lowercase`: the Unicode lowercase mapping, a
/// function of the characters alone.
#[verifier::external_body]
fn to_lower(s: &str) -> (r: String)
    ensures
        r@ == lower_of(s@),
{
    s.to_lowercase()
}

/// Relies on `str::to_uppercase`: the Unicode uppercase mapping, a
/// function of the characters alone.
#[verifier::external_body]
fn to_upper(s: &str) -> (r: String)
    ensures
        r@ == upper_of(s@),
{
    s.to_uppercase()
}

/// A case-convention strategy, selectable at the type level, for
/// synthesizing symbol text from identifier-style variant names. The two
/// spaced conventions exist so that symbols containing literal spaces
/// can be expressed.
#[derive(Clone, Copy, Debug, PartialEq, Eq, Structural)]
pub enum Case {
    Camel,
    Kebab,
    Lower,
    LowerSpaced,
    Pascal,
    ScreamingSnake,
    Snake,
    Upper,
    UpperSpaced,
}

/// The text a convention synthesizes from one identifier.
pub open spec fn case_apply_spec(c: Case, t: Seq<char>) -> Seq<char> {
    match c {
        Case::Camel => lower_camel_of(t),
        Case::Kebab => kebab_of(t),
        Case::Lower => lower_of(t),
        Case::LowerSpaced => lower_of(title_of(t)),
        Case::Pascal => upper_camel_of(t),
        Case::ScreamingSnake => shouty_snake_of(t),
        Case::Snake => snake_of(t),
        Case::Upper => upper_of(t),
        Case::UpperSpaced => upper_of(title_of(t)),
    }
}

impl Case {
    /// Synthesize the convention's text for one identifier.
    pub fn apply(&self, text: &str) -> (r: String)
        ensures
            r@ == case_apply_spec(*self, text@),
    {
        match self {
            Case::Camel => to_lower_camel(text),
            Case::Kebab => to_kebab(text),
            Case::Lower => to_lower(text),
            Case::LowerSpaced => to_lower(to_title(text).as_str()),
            Case::Pascal => to_upper_camel(text),
            Case::ScreamingSnake => to_shouty_snake(text),
            Case::Snake => to_snake(text),
            Case::Upper => to_upper(text),
            Case::UpperSpaced => to_upper(to_title(text).as_str()),
        }
    }
}

impl Default for Case {
    /// The default convention is lower snake case, matching idiomatic
    /// naming of the runtime's identifiers.
    fn default() -> (c: Case)
        ensures
            c == Case::Snake,
    {
        Case::Snake
    }
}

/// One name of a resolver's finite set: a variant identifier, and an
/// optional explicit spelling that takes precedence over the convention.
#[derive(Debug)]
struct ResolverEntry {
    ident: String,
    rename: Option<String>,
}

/// A finite bidirectional mapping between enumeration variants and
/// case-converted symbol text: the name set one host enumeration
/// resolves its runtime symbols against.
#[derive(Debug)]
pub struct Resolver {
    case: Case,
    names: Vec<ResolverEntry>,
}

impl Resolver {
    /// The convention the set synthesizes names with.
    pub closed spec fn case_spec(self) -> Case {
        self.case
    }

    /// How many variants the set holds.
    pub closed spec fn count(self) -> int {
        self.names@.len() as int
    }

    /// The symbol text of the variant at one index: its override if one
    /// was given, the convention's synthesis otherwise.
    pub closed spec fn name_spec(self, i: int) -> Seq<char> {
        match self.names@[i].rename {
            Some(r) => r@,
            None => case_apply_spec(self.case, self.names@[i].ident@),
        }
    }

    /// Index `i` is the first variant whose name is exactly `t`.
    pub open spec fn matches_at(self, t: Seq<char>, i: int) -> bool {
        &&& 0 <= i < self.count()
        &&& self.name_spec(i) == t
        &&& forall|j: int| 0 <= j < i ==> self.name_spec(j) != t
    }

    /// An empty name set under the given convention.
    pub fn new(case: Case) -> (r: Resolver)
        ensures
            r.case_spec() == case,
            r.count() == 0,
    {
        Resolver { case, names: Vec::new() }
    }

    /// Append one variant, named by the convention.
    pub fn variant(&mut self, ident: &str)
        ensures
            final(self).case_spec() == old(self).case_spec(),
            final(self).count() == old(self).count() + 1,
            forall|i: int|
                0 <= i < old(self).count() ==> final(self).name_spec(i) == old(self).name_spec(i),
            final(self).name_spec(old(self).count()) == case_apply_spec(
                old(self).case_spec(),
                ident@,
            ),
    {
        self.names.push(ResolverEntry { ident: ident.to_owned(), rename: None });
    }

    /// Append one variant under an explicit name, overriding the
    /// convention.
    pub fn variant_renamed(&mut self, ident: &str, rename: &str)
        ensures
            final(self).case_spec() == old(self).case_spec(),
            final(self).count() == old(self).count() + 1,
            forall|i: int|
                0 <= i < old(self).count() ==> final(self).name_spec(i) == old(self).name_spec(i),
            final(self).name_spec(old(self).count()) == rename@,
    {
        self.names.push(ResolverEntry { ident: ident.to_owned(), rename: Some(rename.to_owned()) });
    }

    /// How many variants the set holds.
    pub fn len(&self) -> (n: usize)
        ensures
            n == self.count(),
    {
        self.names.len()
    }

    /// Synthesize the symbol text of the variant at one index.
    pub fn name_of(&self, i: usize) -> (r: String)
        requires
            i < self.count(),
        ensures
            r@ == self.name_spec(i as int),
    {
        match &self.names[i].rename {
            Some(r) => r.clone(),
            None => self.case.apply(self.names[i].ident.as_str()),
        }
    }

    /// Resolve symbol text against the set: the first variant with that
    /// exact name, or the unmatched text wrapped as the failure.
    pub fn resolve(&self, text: &str) -> (r: Result<usize, InvalidSymbolError>)
        ensures
            match r {
                Ok(i) => self.matches_at(text@, i as int),
                Err(e) => {
                    &&& forall|i: int| 0 <= i < self.count() ==> self.name_spec(i) != text@
                    &&& e@ == text@
                },
            },
    {
        let owned: String = text.to_owned();
        let n = self.names.len();
        for i in 0..n
            invariant
                n == self.count(),
                owned@ == text@,
                forall|j: int| 0 <= j < i ==> self.name_spec(j) != text@,
        {
            if self.name_of(i) == owned {
                return Ok(i);
            }
        }
        Err(InvalidSymbolError::new(text))
    }
}

} // verus!
