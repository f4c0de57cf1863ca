//! The permission policy: building an immutable capability grant set and
//! rejecting ambiguous grant specifications.
//!
//! A permission-granting token positioned after the script-path token, while
//! no permission was otherwise recognized, indicates that the caller intended
//! to grant permissions but the tokens were consumed as script arguments
//! instead. The policy fails fast on that pattern instead of silently running
//! fully sandboxed: ambiguous intent must never be indistinguishable from a
//! deliberate empty grant set.

use vstd::prelude::*;

use crate::errors::BridgeError;

verus! {

/// Caller-supplied permission options, as recognized by the host's option
/// parser. `None` means the capability was not granted; `Some` carries the
/// scopes it was granted for, empty meaning unscoped.
pub struct PermissionOptions {
    pub allow_all: bool,
    pub allow_read: Option<Vec<String>>,
    pub allow_write: Option<Vec<String>>,
    pub allow_net: Option<Vec<String>>,
}

/// An immutable set of capability grants, built once per invocation request
/// and owned exclusively by the worker it is bound to. The fields are private
/// and no mutator exists: the grant set cannot change after construction.
pub struct PermissionGrantSet {
    allow_all: bool,
    read_scopes: Option<Vec<String>>,
    write_scopes: Option<Vec<String>>,
    net_scopes: Option<Vec<String>>,
}

/// The mathematical shape of a grant set.
pub struct GrantSetModel {
    pub allow_all: bool,
    pub read: Option<Seq<Seq<char>>>,
    pub write: Option<Seq<Seq<char>>>,
    pub net: Option<Seq<Seq<char>>>,
}

impl PermissionOptions {
    /// Whether any permission was recognized from the options.
    pub open spec fn has_any_grant(self) -> bool {
        self.allow_all || self.allow_read is Some || self.allow_write is Some
            || self.allow_net is Some
    }

    /// The grant set these options denote.
    pub open spec fn grants_model(self) -> GrantSetModel {
        GrantSetModel {
            allow_all: self.allow_all,
            read: self.allow_read.deep_view(),
            write: self.allow_write.deep_view(),
            net: self.allow_net.deep_view(),
        }
    }

    /// Whether any permission was recognized from the options.
    pub fn has_permission(&self) -> (r: bool)
        ensures
            r == self.has_any_grant(),
    {
        self.allow_all || self.allow_read.is_some() || self.allow_write.is_some()
            || self.allow_net.is_some()
    }
}

impl View for PermissionGrantSet {
    type V = GrantSetModel;

    closed spec fn view(&self) -> GrantSetModel {
        GrantSetModel {
            allow_all: self.allow_all,
            read: self.read_scopes.deep_view(),
            write: self.write_scopes.deep_view(),
            net: self.net_scopes.deep_view(),
        }
    }
}

impl PermissionGrantSet {
    /// Whether every capability is granted.
    pub fn grants_all(&self) -> (r: bool)
        ensures
            r == self@.allow_all,
    {
        self.allow_all
    }

    /// The scopes the read capability was granted for, if it was.
    pub fn read_scopes(&self) -> (r: &Option<Vec<String>>)
        ensures
            r.deep_view() == self@.read,
    {
        &self.read_scopes
    }

    /// The scopes the write capability was granted for, if it was.
    pub fn write_scopes(&self) -> (r: &Option<Vec<String>>)
        ensures
            r.deep_view() == self@.write,
    {
        &self.write_scopes
    }

    /// The scopes the network capability was granted for, if it was.
    pub fn net_scopes(&self) -> (r: &Option<Vec<String>>)
        ensures
            r.deep_view() == self@.net,
    {
        &self.net_scopes
    }
}

/// Whether a raw token looks like a permission grant: it starts with the
/// permission prefix `--allow-`, or is the grant-everything shorthand `-A`.
pub open spec fn permission_like(t: Seq<char>) -> bool {
    (t.len() >= 8 && t[0] == '-' && t[1] == '-' && t[2] == 'a' && t[3] == 'l' && t[4] == 'l'
        && t[5] == 'o' && t[6] == 'w' && t[7] == '-') || t == seq!['-', 'A']
}

/// Whether a raw token is option-like: it starts with a dash, so the host's
/// option parser would not take it for the script path.
pub open spec fn option_like(t: Seq<char>) -> bool {
    t.len() >= 1 && t[0] == '-'
}

/// The position of the script-path token: the first token that is not
/// option-like. `None` when every token is option-like.
pub open spec fn script_position(argv: Seq<Seq<char>>) -> Option<int>
    decreases argv,
{
    if argv.len() == 0 {
        None
    } else if !option_like(argv[0]) {
        Some(0)
    } else {
        match script_position(argv.drop_first()) {
            Some(p) => Some(p + 1),
            None => None,
        }
    }
}

/// The ambiguity the policy rejects: no permission was recognized, yet a
/// permission-like token stands after the script-path token.
pub open spec fn ambiguous_intent(options: PermissionOptions, argv: Seq<Seq<char>>) -> bool {
    &&& !options.has_any_grant()
    &&& match script_position(argv) {
        Some(p) => exists|i: int| p < i < argv.len() && permission_like(#[trigger] argv[i]),
        None => false,
    }
}

/// Ambiguous grants always fail closed: whenever no permission was recognized
/// and some permission-like token stands after the script-path token, the
/// validation predicate holds, so [`build_grants`] fails with an
/// ambiguous-intent error and never silently returns an empty grant set.
pub proof fn lemma_ambiguous_intent_rejected(
    options: PermissionOptions,
    argv: Seq<Seq<char>>,
    i: int,
)
    requires
        !options.has_any_grant(),
        script_position(argv) is Some,
        script_position(argv)->Some_0 < i < argv.len(),
        permission_like(argv[i]),
    ensures
        ambiguous_intent(options, argv),
{
}

/// The script position is the first non-option-like token: everything before
/// it is option-like, and it is not.
pub proof fn lemma_script_position(argv: Seq<Seq<char>>)
    ensures
        match script_position(argv) {
            Some(p) => 0 <= p < argv.len() && !option_like(argv[p]) && forall|j: int|
                0 <= j < p ==> option_like(#[trigger] argv[j]),
            None => forall|j: int| 0 <= j < argv.len() ==> option_like(#[trigger] argv[j]),
        },
    decreases argv,
{
    if argv.len() > 0 && option_like(argv[0]) {
        let rest = argv.drop_first();
        lemma_script_position(rest);
        assert(forall|j: int| 0 <= j < rest.len() ==> #[trigger] rest[j] == argv[j + 1]);
        match script_position(rest) {
            Some(q) => {
                assert(script_position(argv) == Some(q + 1));
                assert(!option_like(argv[q + 1]));
                assert forall|j: int| 0 <= j < q + 1 implies option_like(#[trigger] argv[j]) by {
                    if j > 0 {
                        assert(rest[j - 1] == argv[j]);
                    }
                }
            },
            None => {
                assert forall|j: int| 0 <= j < argv.len() implies option_like(
                    #[trigger] argv[j],
                ) by {
                    if j > 0 {
                        assert(rest[j - 1] == argv[j]);
                    }
                }
            },
        }
    }
}

fn is_permission_like_token(t: &str) -> (r: bool)
    ensures
        r == permission_like(t@),
{
    let n = t.unicode_len();
    if n >= 8 {
        if t.get_char(0) == '-' && t.get_char(1) == '-' && t.get_char(2) == 'a' && t.get_char(3)
            == 'l' && t.get_char(4) == 'l' && t.get_char(5) == 'o' && t.get_char(6) == 'w'
            && t.get_char(7) == '-' {
            return true;
        }
    }
    if n == 2 {
        if t.get_char(0) == '-' && t.get_char(1) == 'A' {
            proof {
                assert(t@ =~= seq!['-', 'A']);
            }
            return true;
        }
    }
    proof {
        if t@ == seq!['-', 'A'] {
            assert(t@.len() == 2);
        }
    }
    false
}

fn find_script_position(argv: &Vec<String>) -> (r: Option<usize>)
    ensures
        match r {
            Some(p) => script_position(argv.deep_view()) == Some(p as int),
            None => script_position(argv.deep_view()) is None,
        },
{
    let ghost model = argv.deep_view();
    let mut i: usize = 0;
    while i < argv.len()
        invariant
            i <= argv.len(),
            model == argv.deep_view(),
            model.len() == argv@.len(),
            forall|j: int| 0 <= j < i as int ==> option_like(#[trigger] model[j]),
        decreases argv@.len() - i,
    {
        let t = &argv[i];
        let is_opt = if t.unicode_len() >= 1 {
            t.as_str().get_char(0) == '-'
        } else {
            false
        };
        if !is_opt {
            proof {
                assert(!option_like(model[i as int]));
                lemma_first_non_option(model, i as int);
            }
            return Some(i);
        }
        i = i + 1;
    }
    proof {
        lemma_all_options(model);
    }
    None
}

/// If every token before position `p` is option-like and the token at `p` is
/// not, then `p` is the script position.
proof fn lemma_first_non_option(argv: Seq<Seq<char>>, p: int)
    requires
        0 <= p < argv.len(),
        !option_like(argv[p]),
        forall|j: int| 0 <= j < p ==> option_like(#[trigger] argv[j]),
    ensures
        script_position(argv) == Some(p),
    decreases argv,
{
    if p == 0 {
    } else {
        let rest = argv.drop_first();
        assert(forall|j: int| 0 <= j < rest.len() ==> #[trigger] rest[j] == argv[j + 1]);
        lemma_first_non_option(rest, p - 1);
    }
}

/// If every token is option-like, there is no script position.
proof fn lemma_all_options(argv: Seq<Seq<char>>)
    requires
        forall|j: int| 0 <= j < argv.len() ==> option_like(#[trigger] argv[j]),
    ensures
        script_position(argv) is None,
    decreases argv,
{
    if argv.len() > 0 {
        let rest = argv.drop_first();
        assert(forall|j: int| 0 <= j < rest.len() ==> #[trigger] rest[j] == argv[j + 1]);
        lemma_all_options(rest);
    }
}

#[verifier::loop_isolation(false)]
fn has_trailing_permission_token(argv: &Vec<String>, p: usize) -> (r: bool)
    requires
        (p as int) < argv@.len(),
        argv@.len() <= usize::MAX,
    ensures
        r == exists|i: int|
            p < i < argv.deep_view().len() && permission_like(#[trigger] argv.deep_view()[i]),
{
    let ghost model = argv.deep_view();
    let n = argv.len();
    let mut i: usize = p + 1;
    while i < n
        invariant
            p < i <= argv@.len(),
            model == argv.deep_view(),
            model.len() == argv@.len(),
            forall|j: int| p < j < i as int ==> !permission_like(#[trigger] model[j]),
        decreases argv@.len() - i,
    {
        if is_permission_like_token(argv[i].as_str()) {
            proof {
                assert(permission_like(model[i as int]));
            }
            return true;
        }
        i = i + 1;
    }
    false
}

/// Builds the immutable grant set for one invocation from the recognized
/// options, after validating the raw argument vector: if no permission was
/// recognized but a permission-like token trails the script path, the build
/// fails fast with an ambiguous-intent error instead of silently returning an
/// empty grant set.
pub fn build_grants(options: PermissionOptions, raw_argv: &Vec<String>) -> (r: Result<
    PermissionGrantSet,
    BridgeError,
>)
    ensures
        r is Err <==> ambiguous_intent(options, raw_argv.deep_view()),
        r is Err ==> r->Err_0 is AmbiguousPermissionIntent,
        r is Ok ==> r->Ok_0@ == options.grants_model(),
{
    let has_grant = options.has_permission();
    let total = raw_argv.len();
    let pos = find_script_position(raw_argv);
    proof {
        lemma_script_position(raw_argv.deep_view());
        assert(raw_argv@.len() == total as int);
    }
    let trailing = match pos {
        Some(p) => has_trailing_permission_token(raw_argv, p),
        None => false,
    };
    if !has_grant && trailing {
        Err(BridgeError::AmbiguousPermissionIntent)
    } else {
        Ok(
            PermissionGrantSet {
                allow_all: options.allow_all,
                read_scopes: options.allow_read,
                write_scopes: options.allow_write,
                net_scopes: options.allow_net,
            },
        )
    }
}

} // verus!
