//! Where a package comes from: a repository named by a short address, or a
//! path on this machine.
use crate::address::{is_address, lemma_first_colon, lemma_first_marker, lemma_first_slash,
    lemma_laid_out, lemma_parse_text, parse_address, spells, Address};
use crate::fetch::{plan_of, FetchPlan};
use crate::grammar::{check_domain, check_identifier, check_token, find_from, find_marker_from,
    is_domain, is_domain_at, is_identifier, is_token};
use vstd::prelude::*;
use vstd::string::*;

verus! {

/// The host that an address without a domain refers to.
pub const DEFAULT_DOMAIN: &'static str = "github.com";

/// The directory under the packages' root that holds packages copied from
/// this machine. No repository is put there.
pub const LOCAL_NAMESPACE: &'static str = "_local";

/// The directory that takes the repositories of a user named like the
/// reserved directory: the reserved name written twice.
pub const ESCAPED_NAMESPACE: &'static str = "_local_local";

/// Makes `std::path::PathBuf` known as a type. Trusted, and nothing is
/// claimed of it: a path is carried from where it is given to where it is
/// handed out, and never looked into.
#[verifier::external_type_specification]
#[verifier::external_body]
pub struct ExPathBuf(std::path::PathBuf);

/// An address that does not obey the grammar.
#[derive(Debug, PartialEq, Eq, Clone, Copy)]
pub struct InvalidGitAddress;

impl InvalidGitAddress {
    /// The error in words.
    pub fn message(&self) -> (text: String)
        ensures
            text@ == "Invalid git address"@,
    {
        "Invalid git address".to_owned()
    }
}

/// Why a package could not be fetched. Each variant carries the words of
/// the failure underneath.
#[derive(Debug, PartialEq, Eq)]
pub enum GitCloneError {
    /// The repository could not be cloned, or the pinned branch, tag or
    /// commit could not be checked out.
    CannotClone(String),
    /// A file or directory on this machine could not be copied, removed or
    /// written.
    Io(String),
}

impl GitCloneError {
    /// The error in words.
    pub fn message(&self) -> (text: String)
        ensures
            text@ == (match self {
                GitCloneError::CannotClone(_) => "Cannot clone repository"@,
                GitCloneError::Io(_) => "IO error"@,
            }),
    {
        match self {
            GitCloneError::CannotClone(_) => "Cannot clone repository".to_owned(),
            GitCloneError::Io(_) => "IO error".to_owned(),
        }
    }

    /// The words of the failure underneath.
    pub open spec fn detail(self) -> String {
        match self {
            GitCloneError::CannotClone(d) => d,
            GitCloneError::Io(d) => d,
        }
    }

    /// Hands out the words of the failure underneath.
    pub fn into_detail(self) -> (d: String)
        ensures
            d == self.detail(),
    {
        match self {
            GitCloneError::CannotClone(d) => d,
            GitCloneError::Io(d) => d,
        }
    }
}

impl Clone for GitCloneError {
    fn clone(&self) -> (r: Self)
        ensures
            r == *self,
    {
        match self {
            GitCloneError::CannotClone(d) => GitCloneError::CannotClone(d.clone()),
            GitCloneError::Io(d) => GitCloneError::Io(d.clone()),
        }
    }
}

/// A branch, tag or commit that pins a repository.
#[derive(Debug, PartialEq, Eq)]
pub enum GitSpecifier {
    Branch(String),
    Tag(String),
    Commit(String),
}

/// A `GitSpecifier` as a mathematical value.
pub enum GitSpecifierView {
    Branch(Seq<char>),
    Tag(Seq<char>),
    Commit(Seq<char>),
}

impl View for GitSpecifier {
    type V = GitSpecifierView;

    open spec fn view(&self) -> GitSpecifierView {
        match self {
            GitSpecifier::Branch(t) => GitSpecifierView::Branch(t@),
            GitSpecifier::Tag(t) => GitSpecifierView::Tag(t@),
            GitSpecifier::Commit(t) => GitSpecifierView::Commit(t@),
        }
    }
}

/// A `GitSource` as a mathematical value.
pub struct GitSourceView {
    pub domain: Seq<char>,
    pub user: Seq<char>,
    pub name: Seq<char>,
    pub spec: Option<GitSpecifierView>,
}

impl Clone for GitSpecifier {
    fn clone(&self) -> (r: Self)
        ensures
            r == *self,
    {
        match self {
            GitSpecifier::Branch(t) => GitSpecifier::Branch(t.clone()),
            GitSpecifier::Tag(t) => GitSpecifier::Tag(t.clone()),
            GitSpecifier::Commit(t) => GitSpecifier::Commit(t.clone()),
        }
    }
}

/// A repository on a git host. Its host, user, name and specifier obey the
/// grammar of addresses, however it was made.
#[derive(Debug, PartialEq, Eq)]
pub struct GitSource {
    domain: String,
    user: String,
    name: String,
    spec: Option<GitSpecifier>,
}

impl View for GitSource {
    type V = GitSourceView;

    closed spec fn view(&self) -> GitSourceView {
        GitSourceView {
            domain: self.domain@,
            user: self.user@,
            name: self.name@,
            spec: spec_view(self.spec),
        }
    }
}

impl GitSourceView {
    /// Host, user, name and specifier each obey the grammar of addresses.
    pub open spec fn wf(self) -> bool {
        &&& is_domain(self.domain)
        &&& is_identifier(self.user)
        &&& is_identifier(self.name)
        &&& self.spec matches Some(sp) ==> is_token(sp.token())
    }

    /// The parts of the address that names this repository in full.
    pub open spec fn address(self) -> Address {
        Address { domain: Some(self.domain), user: self.user, name: self.name, spec: self.spec }
    }
}

impl Clone for GitSource {
    fn clone(&self) -> (r: Self)
        ensures
            r == *self,
    {
        proof {
            use_type_invariant(self);
        }
        GitSource {
            domain: self.domain.clone(),
            user: self.user.clone(),
            name: self.name.clone(),
            spec: match &self.spec {
                Some(sp) => Some(sp.clone()),
                None => None,
            },
        }
    }
}

impl GitSource {
    #[verifier::type_invariant]
    spec fn parts_obey_the_grammar(self) -> bool {
        self@.wf()
    }

    /// Puts a repository's locator together from its parts, if each obeys
    /// the grammar of addresses.
    pub fn new(domain: &str, user: &str, name: &str, spec: Option<GitSpecifier>) -> (res: Option<
        GitSource,
    >)
        ensures
            res is Some <==> (GitSourceView {
                domain: domain@,
                user: user@,
                name: name@,
                spec: spec_view(spec),
            }).wf(),
            res matches Some(g) ==> g@ == (GitSourceView {
                domain: domain@,
                user: user@,
                name: name@,
                spec: spec_view(spec),
            }),
    {
        if !check_domain(domain) || !check_identifier(user) || !check_identifier(name) {
            return None;
        }
        let token_ok = match &spec {
            Some(GitSpecifier::Branch(t)) => check_token(t.as_str()),
            Some(GitSpecifier::Tag(t)) => check_token(t.as_str()),
            Some(GitSpecifier::Commit(t)) => check_token(t.as_str()),
            None => true,
        };
        if !token_ok {
            return None;
        }
        Some(GitSource { domain: domain.to_owned(), user: user.to_owned(), name: name.to_owned(), spec })
    }

    /// The host that holds the repository: a host name.
    pub fn domain(&self) -> (r: &str)
        ensures
            r@ == self@.domain,
            is_domain(r@),
    {
        proof {
            use_type_invariant(self);
        }
        self.domain.as_str()
    }

    /// The user or organisation that the repository belongs to: an
    /// identifier.
    pub fn user(&self) -> (r: &str)
        ensures
            r@ == self@.user,
            is_identifier(r@),
    {
        proof {
            use_type_invariant(self);
        }
        self.user.as_str()
    }

    /// The repository's name: an identifier.
    pub fn name(&self) -> (r: &str)
        ensures
            r@ == self@.name,
            is_identifier(r@),
    {
        proof {
            use_type_invariant(self);
        }
        self.name.as_str()
    }

    /// The branch, tag or commit that the repository is pinned to, if any.
    /// Its text is one or more word characters.
    pub fn spec(&self) -> (r: Option<&GitSpecifier>)
        ensures
            spec_view_of(r) == self@.spec,
            r matches Some(sp) ==> is_token(sp@.token()),
    {
        proof {
            use_type_invariant(self);
        }
        self.spec.as_ref()
    }
}

/// An optional specifier as a mathematical value.
pub open spec fn spec_view(spec: Option<GitSpecifier>) -> Option<GitSpecifierView> {
    match spec {
        Some(sp) => Some(sp@),
        None => None,
    }
}

/// A borrowed optional specifier as a mathematical value.
pub open spec fn spec_view_of(spec: Option<&GitSpecifier>) -> Option<GitSpecifierView> {
    match spec {
        Some(sp) => Some(sp@),
        None => None,
    }
}

/// The default host is a host name.
pub proof fn lemma_default_domain()
    ensures
        is_domain(DEFAULT_DOMAIN@),
{
    reveal_strlit("github.com");
    let d = DEFAULT_DOMAIN@;
    assert(is_domain_at(d, 6));
}

/// Reads an address of the form `[domain:]user/name[marker token]`, where
/// the marker `$` introduces a branch, `@` a tag and `#` a commit.
///
/// Returns the repository that the address names, and `None` for every text
/// that is no address.
pub fn parse_git_address(addr: &str) -> (res: Option<GitSource>)
    ensures
        res is Some <==> is_address(addr@),
        res matches Some(g) ==> parse_address(addr@) == Some(g@) && g@.wf(),
{
    let ghost s = addr@;
    let ghost a = choose|a: Address| spells(a, s);
    proof {
        lemma_laid_out(a);
    }
    let n: usize = addr.unicode_len();
    let colon: usize = find_from(addr, 0, ':');
    proof {
        if is_address(s) {
            lemma_first_colon(a, colon as int);
        }
    }
    let domain: String;
    let start: usize;
    let ghost host: Option<Seq<char>>;
    if colon < n {
        let written = addr.substring_char(0, colon);
        if !check_domain(written) {
            return None;
        }
        domain = written.to_owned();
        start = colon + 1;
        proof {
            host = Some(written@);
        }
    } else {
        domain = DEFAULT_DOMAIN.to_owned();
        start = 0;
        proof {
            host = None;
            lemma_default_domain();
        }
    }
    let slash: usize = find_from(addr, start, '/');
    proof {
        if is_address(s) {
            lemma_first_slash(a, slash as int);
        }
    }
    if slash == n {
        return None;
    }
    let user = addr.substring_char(start, slash);
    if !check_identifier(user) {
        return None;
    }
    let mark: usize = find_marker_from(addr, slash + 1);
    proof {
        if is_address(s) {
            lemma_first_marker(a, mark as int);
        }
    }
    let name = addr.substring_char(slash + 1, mark);
    if !check_identifier(name) {
        return None;
    }
    let spec: Option<GitSpecifier>;
    if mark == n {
        spec = None;
    } else {
        let token = addr.substring_char(mark + 1, n);
        if !check_token(token) {
            return None;
        }
        let m = addr.get_char(mark);
        if m == '$' {
            spec = Some(GitSpecifier::Branch(token.to_owned()));
        } else if m == '@' {
            spec = Some(GitSpecifier::Tag(token.to_owned()));
        } else {
            spec = Some(GitSpecifier::Commit(token.to_owned()));
        }
    }
    let source = GitSource { domain, user: user.to_owned(), name: name.to_owned(), spec };
    proof {
        let written = Address {
            domain: host,
            user: source@.user,
            name: source@.name,
            spec: source@.spec,
        };
        assert(written.text() =~= s);
        lemma_parse_text(written);
    }
    Some(source)
}

#[derive(Debug, PartialEq, Eq)]
enum PackageSourceInner {
    Git(GitSource),
    Local(std::path::PathBuf),
}

/// Where a package's files are taken from: a repository, or a path on this
/// machine.
#[derive(Debug, PartialEq, Eq)]
pub struct PackageSource {
    inner: PackageSourceInner,
}

/// A `PackageSource` as a mathematical value.
pub enum PackageSourceView {
    Git(GitSourceView),
    Local(std::path::PathBuf),
}

impl View for PackageSource {
    type V = PackageSourceView;

    closed spec fn view(&self) -> PackageSourceView {
        match self.inner {
            PackageSourceInner::Git(g) => PackageSourceView::Git(g@),
            PackageSourceInner::Local(p) => PackageSourceView::Local(p),
        }
    }
}

impl PackageSource {
    /// The repository that `address` names, or an error where `address` does
    /// not obey the grammar.
    pub fn new_git(address: String) -> (res: Result<Self, InvalidGitAddress>)
        ensures
            res is Ok <==> is_address(address@),
            res matches Ok(p) ==> p@ matches PackageSourceView::Git(g) && parse_address(address@)
                == Some(g) && g.wf(),
    {
        if let Some(source) = parse_git_address(address.as_str()) {
            Ok(Self { inner: PackageSourceInner::Git(source) })
        } else {
            Err(InvalidGitAddress)
        }
    }

    /// The file or directory at `path` on this machine.
    pub fn new_local(path: std::path::PathBuf) -> (p: Self)
        ensures
            p@ == PackageSourceView::Local(path),
    {
        Self { inner: PackageSourceInner::Local(path) }
    }

    /// All that a driver needs to fetch the package from this source.
    pub fn plan(self) -> (plan: FetchPlan)
        ensures
            plan@ == plan_of(self@),
    {
        match self.inner {
            PackageSourceInner::Git(g) => {
                let destination = g.destination();
                let url = g.clone_url();
                FetchPlan::Git { destination, url, spec: g.spec }
            },
            PackageSourceInner::Local(p) => FetchPlan::Local { from: p },
        }
    }

    /// The repository, where the package comes from one.
    pub fn git(&self) -> (r: Option<&GitSource>)
        ensures
            match self@ {
                PackageSourceView::Git(g) => r matches Some(source) && source@ == g,
                PackageSourceView::Local(_) => r is None,
            },
    {
        match &self.inner {
            PackageSourceInner::Git(g) => Some(g),
            PackageSourceInner::Local(_) => None,
        }
    }

    /// The path, where the package comes from this machine.
    pub fn local(&self) -> (r: Option<&std::path::PathBuf>)
        ensures
            match self@ {
                PackageSourceView::Git(_) => r is None,
                PackageSourceView::Local(p) => r == Some(&p),
            },
    {
        match &self.inner {
            PackageSourceInner::Git(_) => None,
            PackageSourceInner::Local(p) => Some(p),
        }
    }
}

} // verus!
