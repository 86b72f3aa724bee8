//! Workspace member directives: `"prefix:relative/path"` strings.

use vstd::prelude::*;
use vstd::string::*;

verus! {

/// The ecosystem that a workspace member belongs to.
#[derive(Clone, Copy, Debug, PartialEq, Eq, Structural)]
pub enum MemberKind {
    /// A package described by this tool's own package manifest.
    Generic,
    /// A workspace of the compiled-language ecosystem.
    Cargo,
    /// Packages of the interpreted-language ecosystem.
    Npm,
}

/// A parsed workspace member directive.
#[derive(Clone, Debug)]
pub enum WorkspaceMember {
    Generic(String),
    Cargo(String),
    Npm(String),
}

/// Why a member directive could not be parsed.
#[derive(Clone, Debug)]
pub enum MemberParseError {
    /// The directive has no `:` separator.
    NoPrefix { val: String },
    /// The text before the first `:` names no known ecosystem.
    UnknownPrefix { prefix: String, val: String },
}

/// What a failed parse says, apart from the directive itself.
pub enum ParseFailure {
    NoPrefix,
    UnknownPrefix(Seq<char>),
}

pub open spec fn generic_prefix() -> Seq<char> {
    seq!['d', 'i', 's', 't']
}

pub open spec fn cargo_prefix() -> Seq<char> {
    seq!['c', 'a', 'r', 'g', 'o']
}

pub open spec fn npm_prefix() -> Seq<char> {
    seq!['n', 'p', 'm']
}

/// The prefix that selects an ecosystem.
pub open spec fn prefix_of(k: MemberKind) -> Seq<char> {
    match k {
        MemberKind::Generic => generic_prefix(),
        MemberKind::Cargo => cargo_prefix(),
        MemberKind::Npm => npm_prefix(),
    }
}

/// The ecosystem that a prefix selects, if any.
pub open spec fn kind_of_prefix(p: Seq<char>) -> Option<MemberKind> {
    if p == generic_prefix() {
        Some(MemberKind::Generic)
    } else if p == cargo_prefix() {
        Some(MemberKind::Cargo)
    } else if p == npm_prefix() {
        Some(MemberKind::Npm)
    } else {
        None
    }
}

/// `i` is the position of the first `:` in `s`.
pub open spec fn is_first_sep(s: Seq<char>, i: int) -> bool {
    &&& 0 <= i < s.len()
    &&& s[i] == ':'
    &&& forall|j: int| 0 <= j < i ==> s[j] != ':'
}

/// `s` split at its first `:`, if it has one.
pub open spec fn split_at_sep(s: Seq<char>) -> Option<(Seq<char>, Seq<char>)> {
    if exists|i: int| is_first_sep(s, i) {
        let i = choose|i: int| is_first_sep(s, i);
        Some((s.subrange(0, i), s.subrange(i + 1, s.len() as int)))
    } else {
        None
    }
}

/// The meaning of a member directive.
pub open spec fn spec_parse(s: Seq<char>) -> Result<(MemberKind, Seq<char>), ParseFailure> {
    match split_at_sep(s) {
        None => Err(ParseFailure::NoPrefix),
        Some((k, p)) => match kind_of_prefix(k) {
            Some(kind) => Ok((kind, p)),
            None => Err(ParseFailure::UnknownPrefix(k)),
        },
    }
}

/// The canonical text of a member: its prefix, `:`, its path.
pub open spec fn spec_render(m: (MemberKind, Seq<char>)) -> Seq<char> {
    prefix_of(m.0) + seq![':'] + m.1
}

impl WorkspaceMember {
    pub open spec fn kind(&self) -> MemberKind {
        match self {
            WorkspaceMember::Generic(_) => MemberKind::Generic,
            WorkspaceMember::Cargo(_) => MemberKind::Cargo,
            WorkspaceMember::Npm(_) => MemberKind::Npm,
        }
    }

    pub open spec fn path(&self) -> Seq<char> {
        match self {
            WorkspaceMember::Generic(p) => p@,
            WorkspaceMember::Cargo(p) => p@,
            WorkspaceMember::Npm(p) => p@,
        }
    }

    pub open spec fn view(&self) -> (MemberKind, Seq<char>) {
        (self.kind(), self.path())
    }
}

impl MemberParseError {
    pub open spec fn failure(&self) -> ParseFailure {
        match self {
            MemberParseError::NoPrefix { .. } => ParseFailure::NoPrefix,
            MemberParseError::UnknownPrefix { prefix, .. } => ParseFailure::UnknownPrefix(prefix@),
        }
    }

    pub open spec fn val(&self) -> Seq<char> {
        match self {
            MemberParseError::NoPrefix { val } => val@,
            MemberParseError::UnknownPrefix { val, .. } => val@,
        }
    }
}

/// What parsing `s` into `r` must give: the parsed member, or the failure
/// together with the whole directive.
pub open spec fn parsed_as(s: Seq<char>, r: Result<WorkspaceMember, MemberParseError>) -> bool {
    match r {
        Ok(m) => spec_parse(s) == Ok::<(MemberKind, Seq<char>), ParseFailure>(m.view()),
        Err(e) => spec_parse(s) == Err::<(MemberKind, Seq<char>), ParseFailure>(e.failure())
            && e.val() == s,
    }
}

proof fn lemma_first_sep_unique(s: Seq<char>, i: int, j: int)
    requires
        is_first_sep(s, i),
        is_first_sep(s, j),
    ensures
        i == j,
{
}

/// Rendering a member and parsing the text gives the member back.
pub proof fn lemma_parse_render(m: (MemberKind, Seq<char>))
    ensures
        spec_parse(spec_render(m)) == Ok::<(MemberKind, Seq<char>), ParseFailure>(m),
{
    let s = spec_render(m);
    let n = prefix_of(m.0).len() as int;
    assert(is_first_sep(s, n));
    let i = choose|i: int| is_first_sep(s, i);
    lemma_first_sep_unique(s, i, n);
    assert(s.subrange(0, n) =~= prefix_of(m.0));
    assert(s.subrange(n + 1, s.len() as int) =~= m.1);
}

/// Parse, render and parse again: a directive with a known prefix parses to
/// the same member from its canonical text.
pub proof fn lemma_member_round_trip(s: Seq<char>)
    requires
        spec_parse(s) is Ok,
    ensures
        spec_parse(spec_render(spec_parse(s)->Ok_0)) == spec_parse(s),
{
    lemma_parse_render(spec_parse(s)->Ok_0);
}

/// A directive without a `:` always fails with `NoPrefix`.
pub proof fn lemma_no_separator(s: Seq<char>)
    requires
        forall|i: int| 0 <= i < s.len() ==> s[i] != ':',
    ensures
        spec_parse(s) == Err::<(MemberKind, Seq<char>), ParseFailure>(ParseFailure::NoPrefix),
{
}

/// Whether two strings hold the same characters.
fn str_eq(a: &str, b: &str) -> (r: bool)
    ensures
        r == (a@ == b@),
{
    let n = a.unicode_len();
    if n != b.unicode_len() {
        return false;
    }
    let mut i: usize = 0;
    while i < n
        invariant
            n == a@.len(),
            n == b@.len(),
            i <= n,
            forall|j: int| 0 <= j < i ==> a@[j] == b@[j],
        decreases n - i,
    {
        if a.get_char(i) != b.get_char(i) {
            return false;
        }
        i = i + 1;
    }
    assert(a@ =~= b@);
    true
}

impl WorkspaceMember {
    /// Parses `prefix:path`, splitting at the first `:`.
    pub fn from_str(member: &str) -> (r: Result<WorkspaceMember, MemberParseError>)
        ensures
            parsed_as(member@, r),
    {
        let n = member.unicode_len();
        let mut i: usize = 0;
        while i < n && member.get_char(i) != ':'
            invariant
                n == member@.len(),
                i <= n,
                forall|j: int| 0 <= j < i ==> member@[j] != ':',
            decreases n - i,
        {
            i = i + 1;
        }
        if i == n {
            assert(!exists|k: int| is_first_sep(member@, k));
            return Err(MemberParseError::NoPrefix { val: member.to_owned() });
        }
        proof {
            assert(is_first_sep(member@, i as int));
            let c = choose|k: int| is_first_sep(member@, k);
            lemma_first_sep_unique(member@, c, i as int);
        }
        let kind = member.substring_char(0, i);
        let path = member.substring_char(i + 1, n).to_owned();
        proof {
            reveal_strlit("dist");
            reveal_strlit("cargo");
            reveal_strlit("npm");
            assert("dist"@ =~= generic_prefix());
            assert("cargo"@ =~= cargo_prefix());
            assert("npm"@ =~= npm_prefix());
        }
        if str_eq(kind, "dist") {
            Ok(WorkspaceMember::Generic(path))
        } else if str_eq(kind, "cargo") {
            Ok(WorkspaceMember::Cargo(path))
        } else if str_eq(kind, "npm") {
            Ok(WorkspaceMember::Npm(path))
        } else {
            Err(MemberParseError::UnknownPrefix { prefix: kind.to_owned(), val: member.to_owned() })
        }
    }

    /// The canonical text of the member: `prefix:path`.
    pub fn to_string(&self) -> (r: String)
        ensures
            r@ == spec_render(self.view()),
    {
        proof {
            reveal_strlit("dist:");
            reveal_strlit("cargo:");
            reveal_strlit("npm:");
            assert("dist:"@ =~= generic_prefix() + seq![':']);
            assert("cargo:"@ =~= cargo_prefix() + seq![':']);
            assert("npm:"@ =~= npm_prefix() + seq![':']);
        }
        match self {
            WorkspaceMember::Generic(p) => {
                let r = String::from_str("dist:").concat(p.as_str());
                assert(r@ =~= spec_render(self.view()));
                r
            },
            WorkspaceMember::Cargo(p) => {
                let r = String::from_str("cargo:").concat(p.as_str());
                assert(r@ =~= spec_render(self.view()));
                r
            },
            WorkspaceMember::Npm(p) => {
                let r = String::from_str("npm:").concat(p.as_str());
                assert(r@ =~= spec_render(self.view()));
                r
            },
        }
    }
}

} // verus!
