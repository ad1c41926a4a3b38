//! What an address spells: its parts, the text they make, and the proof
//! that a text can be taken apart in one way only.
use crate::grammar::{
    is_domain, is_ident_char, is_identifier, is_marker, is_token, is_word, lemma_domain_chars,
};
use crate::package_index::{GitSourceView, GitSpecifierView, DEFAULT_DOMAIN};
use vstd::prelude::*;

verus! {

impl GitSpecifierView {
    /// The character that introduces this kind of specifier.
    pub open spec fn marker(self) -> char {
        match self {
            GitSpecifierView::Branch(_) => '$',
            GitSpecifierView::Tag(_) => '@',
            GitSpecifierView::Commit(_) => '#',
        }
    }

    /// The name of the branch or tag, or the commit's hash.
    pub open spec fn token(self) -> Seq<char> {
        match self {
            GitSpecifierView::Branch(t) => t,
            GitSpecifierView::Tag(t) => t,
            GitSpecifierView::Commit(t) => t,
        }
    }
}

/// The parts that an address is written from.
pub struct Address {
    /// The host, where the address names one.
    pub domain: Option<Seq<char>>,
    pub user: Seq<char>,
    pub name: Seq<char>,
    pub spec: Option<GitSpecifierView>,
}

impl Address {
    /// Each part obeys the grammar.
    pub open spec fn valid(self) -> bool {
        &&& self.domain matches Some(d) ==> is_domain(d)
        &&& is_identifier(self.user)
        &&& is_identifier(self.name)
        &&& self.spec matches Some(sp) ==> is_token(sp.token())
    }

    /// The host and its `:`, or nothing.
    pub open spec fn domain_part(self) -> Seq<char> {
        match self.domain {
            Some(d) => d.push(':'),
            None => Seq::empty(),
        }
    }

    /// The marker and the specifier's text, or nothing.
    pub open spec fn spec_part(self) -> Seq<char> {
        match self.spec {
            Some(sp) => seq![sp.marker()] + sp.token(),
            None => Seq::empty(),
        }
    }

    /// The address as it is written: `[domain:]user/name[marker token]`.
    pub open spec fn text(self) -> Seq<char> {
        self.domain_part() + self.user + seq!['/'] + self.name + self.spec_part()
    }

    /// The repository that the address names; without a host, the default.
    pub open spec fn source(self) -> GitSourceView {
        GitSourceView {
            domain: match self.domain {
                Some(d) => d,
                None => DEFAULT_DOMAIN@,
            },
            user: self.user,
            name: self.name,
            spec: self.spec,
        }
    }

    /// The index in the text at which the user's name begins.
    pub open spec fn user_start(self) -> int {
        self.domain_part().len() as int
    }

    /// The index of the `/` behind the user's name.
    pub open spec fn user_end(self) -> int {
        self.user_start() + self.user.len()
    }

    /// The index at which the repository's name begins.
    pub open spec fn name_start(self) -> int {
        self.user_end() + 1
    }

    /// The index behind the repository's name: that of the marker, or the
    /// length of the text.
    pub open spec fn name_end(self) -> int {
        self.name_start() + self.name.len()
    }

    /// Where each part lies in the text.
    pub open spec fn laid_out(self) -> bool {
        let s = self.text();
        &&& s.len() == self.name_end() + self.spec_part().len()
        &&& match self.domain {
            Some(d) => d.len() + 1 == self.user_start() && s.subrange(0, d.len() as int) == d
                && s[d.len() as int] == ':',
            None => self.user_start() == 0,
        }
        &&& s.subrange(self.user_start(), self.user_end()) == self.user
        &&& s[self.user_end()] == '/'
        &&& s.subrange(self.name_start(), self.name_end()) == self.name
        &&& match self.spec {
            Some(sp) => s[self.name_end()] == sp.marker() && s.subrange(
                self.name_end() + 1,
                s.len() as int,
            ) == sp.token(),
            None => true,
        }
    }

    /// Which characters stand where in the text of a valid address.
    pub open spec fn classed(self) -> bool {
        let s = self.text();
        &&& forall|i: int| 0 <= i < self.user_start() - 1 ==> #[trigger] s[i] != ':'
        &&& forall|i: int| self.user_start() <= i < self.user_end() ==> is_ident_char(#[trigger] s[i])
        &&& forall|i: int| self.name_start() <= i < self.name_end() ==> is_ident_char(#[trigger] s[i])
        &&& forall|i: int| self.name_end() < i < s.len() ==> is_word(#[trigger] s[i])
    }
}

/// The parts `a` obey the grammar and are written `s`.
pub open spec fn spells(a: Address, s: Seq<char>) -> bool {
    a.valid() && a.text() == s
}

/// `s` is an address: some valid parts are written so.
pub open spec fn is_address(s: Seq<char>) -> bool {
    exists|a: Address| spells(a, s)
}

/// The repository that `s` names, if `s` is an address.
pub open spec fn parse_address(s: Seq<char>) -> Option<GitSourceView> {
    if is_address(s) {
        Some((choose|a: Address| spells(a, s)).source())
    } else {
        None
    }
}

/// Each part of an address lies in the text where its offsets say.
pub proof fn lemma_laid_out(a: Address)
    ensures
        a.laid_out(),
{
    let s = a.text();
    assert(s.subrange(a.user_start(), a.user_end()) =~= a.user);
    assert(s.subrange(a.name_start(), a.name_end()) =~= a.name);
    if let Some(d) = a.domain {
        assert(s.subrange(0, d.len() as int) =~= d);
    }
    if let Some(spec) = a.spec {
        assert(s.subrange(a.name_end() + 1, s.len() as int) =~= spec.token());
    }
}

/// In the text of a valid address the host holds no `:`, the names hold
/// identifier characters only, and the specifier word characters only.
pub proof fn lemma_classed(a: Address)
    requires
        a.valid(),
    ensures
        a.laid_out(),
        a.classed(),
{
    lemma_laid_out(a);
    let s = a.text();
    assert forall|i: int| 0 <= i < a.user_start() - 1 implies #[trigger] s[i] != ':' by {
        lemma_domain_chars(a.domain->0, i);
    }
}

/// Behind the host's `:` the text of a valid address holds no `:`.
pub proof fn lemma_no_colon_after_host(a: Address, i: int)
    requires
        a.valid(),
        a.user_start() <= i < a.text().len(),
    ensures
        a.text()[i] != ':',
{
    lemma_classed(a);
}

/// The text of a valid address holds `/` in one place only.
pub proof fn lemma_only_slash(a: Address, i: int)
    requires
        a.valid(),
        0 <= i < a.text().len(),
        a.text()[i] == '/',
    ensures
        i == a.user_end(),
{
    lemma_classed(a);
    if i < a.user_start() - 1 {
        lemma_domain_chars(a.domain->0, i);
    }
}

/// In the text of a valid address the first `:` ends the host; where no
/// host is written the text holds no `:`.
pub proof fn lemma_first_colon(a: Address, colon: int)
    requires
        a.valid(),
        0 <= colon <= a.text().len(),
        forall|i: int| 0 <= i < colon ==> a.text()[i] != ':',
        colon < a.text().len() ==> a.text()[colon] == ':',
    ensures
        a.domain matches Some(d) ==> colon == d.len() && d == a.text().subrange(0, colon),
        a.domain is None ==> colon == a.text().len(),
        a.user_start() == (if colon < a.text().len() {
            colon + 1
        } else {
            0
        }),
{
    lemma_classed(a);
    if a.domain is None && colon < a.text().len() {
        lemma_no_colon_after_host(a, colon);
    }
}

/// In the text of a valid address the first `/` behind the host ends the
/// user's name.
pub proof fn lemma_first_slash(a: Address, slash: int)
    requires
        a.valid(),
        a.user_start() <= slash <= a.text().len(),
        forall|i: int| a.user_start() <= i < slash ==> a.text()[i] != '/',
        slash < a.text().len() ==> a.text()[slash] == '/',
    ensures
        slash == a.user_end(),
{
    lemma_classed(a);
}

/// In the text of a valid address the first marker behind the `/` ends the
/// repository's name; where no specifier is written there is none.
pub proof fn lemma_first_marker(a: Address, mark: int)
    requires
        a.valid(),
        a.name_start() <= mark <= a.text().len(),
        forall|i: int| a.name_start() <= i < mark ==> !is_marker(a.text()[i]),
        mark < a.text().len() ==> is_marker(a.text()[mark]),
    ensures
        mark == a.name_end(),
        a.spec is Some <==> mark < a.text().len(),
{
    lemma_classed(a);
}

/// A text is written from one set of valid parts at most.
pub proof fn lemma_unique(a: Address, b: Address)
    requires
        a.valid(),
        b.valid(),
        a.text() == b.text(),
    ensures
        a == b,
{
    let s = a.text();
    lemma_classed(a);
    lemma_classed(b);
    // The host of one ends where the host of the other ends.
    let colon = if a.domain is Some {
        a.user_start() - 1
    } else {
        s.len() as int
    };
    assert forall|i: int| 0 <= i < colon implies s[i] != ':' by {
        if a.domain is None {
            lemma_no_colon_after_host(a, i);
        }
    }
    lemma_first_colon(b, colon);
    // So does the user's name, and the repository's.
    lemma_first_slash(b, a.user_end());
    lemma_first_marker(b, a.name_end());
}

/// A text written from valid parts parses to the repository that the parts
/// name: the host, user, name and specifier given, the default host where
/// none was given, and no specifier where none was given.
pub proof fn lemma_parse_text(a: Address)
    requires
        a.valid(),
    ensures
        parse_address(a.text()) == Some(a.source()),
        a.domain is None ==> parse_address(a.text())->0.domain == DEFAULT_DOMAIN@,
        a.domain matches Some(d) ==> parse_address(a.text())->0.domain == d,
        parse_address(a.text())->0.user == a.user,
        parse_address(a.text())->0.name == a.name,
        parse_address(a.text())->0.spec == a.spec,
{
    let s = a.text();
    assert(spells(a, s));
    let b = choose|b: Address| spells(b, s);
    lemma_unique(a, b);
}

/// A repository whose parts obey the grammar, written out with its host,
/// parses to itself.
pub proof fn lemma_parse_source(g: GitSourceView)
    requires
        g.wf(),
    ensures
        parse_address(g.address().text()) == Some(g),
{
    lemma_parse_text(g.address());
}

/// A text that begins with `:` is no address: a host cannot be empty.
pub proof fn lemma_empty_host_is_refused(s: Seq<char>)
    requires
        s.len() > 0,
        s[0] == ':',
    ensures
        !is_address(s),
        parse_address(s) is None,
{
    if is_address(s) {
        let a = choose|a: Address| spells(a, s);
        lemma_classed(a);
        if a.domain is None {
            lemma_no_colon_after_host(a, 0);
        }
    }
}

/// A text that ends with `$`, `@` or `#` is no address: a specifier cannot
/// be empty.
pub proof fn lemma_empty_specifier_is_refused(s: Seq<char>)
    requires
        s.len() > 0,
        is_marker(s[s.len() - 1]),
    ensures
        !is_address(s),
        parse_address(s) is None,
{
    if is_address(s) {
        let a = choose|a: Address| spells(a, s);
        lemma_classed(a);
    }
}

/// The one `/` of an address parts the user from the repository: a text
/// with a second `/` is no address.
pub proof fn lemma_second_slash_is_refused(s: Seq<char>, i: int, j: int)
    requires
        0 <= i < j < s.len(),
        s[i] == '/',
        s[j] == '/',
    ensures
        !is_address(s),
        parse_address(s) is None,
{
    if is_address(s) {
        let a = choose|a: Address| spells(a, s);
        lemma_only_slash(a, i);
        lemma_only_slash(a, j);
    }
}

/// Every character of an address is a word character or one of
/// `-`, `_`, `.`, `:`, `/`, `$`, `@`, `#`: a text with any other character
/// is no address.
pub proof fn lemma_foreign_character_is_refused(s: Seq<char>, i: int)
    requires
        0 <= i < s.len(),
        !is_ident_char(s[i]),
        !is_marker(s[i]),
        s[i] != '.' && s[i] != ':' && s[i] != '/',
    ensures
        !is_address(s),
        parse_address(s) is None,
{
    if is_address(s) {
        let a = choose|a: Address| spells(a, s);
        lemma_classed(a);
        if i < a.user_start() - 1 {
            lemma_domain_chars(a.domain->0, i);
        }
    }
}

} // verus!
