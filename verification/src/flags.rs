//! Engine flag merging and initialize-once configuration.
//!
//! The effective engine configuration merges default flags, flags sourced
//! from the process environment, and explicit caller flags, with precedence
//! default < environment < explicit. The configuration is applied at most
//! once per process lifetime: repeating it with the same input is a no-op,
//! repeating it with different input is a reported error, never a silent
//! reconfiguration.

use vstd::prelude::*;

use crate::errors::BridgeError;

verus! {

/// The merged flag list: defaults first, then environment-sourced flags, then
/// explicit flags. The engine applies later flags over earlier ones, so a
/// flag named in a later segment wins (see [`lemma_flag_precedence`]).
pub open spec fn merged_flags(
    defaults: Seq<Seq<char>>,
    env_flags: Seq<Seq<char>>,
    explicit: Seq<Seq<char>>,
) -> Seq<Seq<char>> {
    defaults + env_flags + explicit
}

/// The position of the first `=` in a flag token, or the token's length when
/// it has none: the boundary between the flag's name and its value.
pub open spec fn name_end(t: Seq<char>) -> int
    decreases t,
{
    if t.len() == 0 {
        0
    } else if t[0] == '=' {
        0
    } else {
        1 + name_end(t.drop_first())
    }
}

/// The name of a flag token: everything before its first `=`.
pub open spec fn flag_name(t: Seq<char>) -> Seq<char> {
    t.subrange(0, name_end(t))
}

/// The effective token for a flag name: the last token in the list carrying
/// that name, since the engine applies later flags over earlier ones.
pub open spec fn effective_flag(flags: Seq<Seq<char>>, name: Seq<char>) -> Option<Seq<char>>
    decreases flags,
{
    if flags.len() == 0 {
        None
    } else if flag_name(flags.last()) == name {
        Some(flags.last())
    } else {
        effective_flag(flags.drop_last(), name)
    }
}

/// In a concatenation, the later segment wins: the effective token comes from
/// the right-hand list when that list names the flag at all, and from the
/// left-hand list otherwise.
pub proof fn lemma_effective_concat(a: Seq<Seq<char>>, b: Seq<Seq<char>>, name: Seq<char>)
    ensures
        effective_flag(a + b, name) == (if effective_flag(b, name) is Some {
            effective_flag(b, name)
        } else {
            effective_flag(a, name)
        }),
    decreases b,
{
    if b.len() == 0 {
        assert(a + b =~= a);
    } else {
        assert((a + b).last() == b.last());
        assert((a + b).drop_last() =~= a + b.drop_last());
        lemma_effective_concat(a, b.drop_last(), name);
    }
}

/// Precedence law: in the merged configuration an explicit flag wins over an
/// environment-sourced flag, which wins over a default.
pub proof fn lemma_flag_precedence(
    defaults: Seq<Seq<char>>,
    env_flags: Seq<Seq<char>>,
    explicit: Seq<Seq<char>>,
    name: Seq<char>,
)
    ensures
        effective_flag(explicit, name) is Some ==> effective_flag(
            merged_flags(defaults, env_flags, explicit),
            name,
        ) == effective_flag(explicit, name),
        effective_flag(explicit, name) is None && effective_flag(env_flags, name) is Some
            ==> effective_flag(merged_flags(defaults, env_flags, explicit), name)
            == effective_flag(env_flags, name),
        effective_flag(explicit, name) is None && effective_flag(env_flags, name) is None
            ==> effective_flag(merged_flags(defaults, env_flags, explicit), name)
            == effective_flag(defaults, name),
{
    lemma_effective_concat(defaults + env_flags, explicit, name);
    lemma_effective_concat(defaults, env_flags, name);
}

/// What one configuration attempt does to the recorded state: a first attempt
/// applies the merged flags; a repeat with the same merged flags is accepted
/// as a no-op; a repeat with different flags is refused and changes nothing.
pub open spec fn configure_outcome(state: Option<Seq<Seq<char>>>, merged: Seq<Seq<char>>) -> (
    Option<Seq<Seq<char>>>,
    bool,
) {
    match state {
        None => (Some(merged), true),
        Some(applied) => if applied == merged {
            (Some(applied), true)
        } else {
            (Some(applied), false)
        },
    }
}

/// Idempotent configuration: configuring from scratch and then repeating with
/// the same inputs applies the merged flags once, succeeds both times, and
/// leaves the effective configuration identical.
pub proof fn lemma_configure_idempotent(
    defaults: Seq<Seq<char>>,
    env_flags: Seq<Seq<char>>,
    explicit: Seq<Seq<char>>,
)
    ensures
        ({
            let merged = merged_flags(defaults, env_flags, explicit);
            let (first_state, first_ok) = configure_outcome(None, merged);
            let (second_state, second_ok) = configure_outcome(first_state, merged);
            first_ok && second_ok && first_state == second_state && first_state == Some(merged)
        }),
{
}

/// The initialize-once holder of the process-wide engine configuration. The
/// recorded flag list is private and changes only through [`Self::configure`],
/// which never overwrites an applied configuration.
pub struct EngineConfigurator {
    applied: Option<Vec<String>>,
}

impl EngineConfigurator {
    /// The flags that have been applied, or `None` before configuration.
    pub closed spec fn configured_flags(&self) -> Option<Seq<Seq<char>>> {
        self.applied.deep_view()
    }

    /// A fresh, unconfigured holder.
    pub fn new() -> (r: Self)
        ensures
            r.configured_flags() is None,
    {
        EngineConfigurator { applied: None }
    }

    /// Whether the engine configuration has been applied.
    pub fn is_configured(&self) -> (r: bool)
        ensures
            r == (self.configured_flags() is Some),
    {
        self.applied.is_some()
    }

    /// The applied flag list, for the host to hand to the engine.
    pub fn applied_flags(&self) -> (r: &Option<Vec<String>>)
        ensures
            r.deep_view() == self.configured_flags(),
    {
        &self.applied
    }

    /// Merges defaults, environment-sourced flags and explicit flags and
    /// applies the result exactly once per holder: a repeat with the same
    /// merged flags is accepted as a no-op, a repeat with different flags is
    /// refused with an already-configured error and changes nothing.
    pub fn configure(
        &mut self,
        defaults: &Vec<String>,
        env_flags: &Vec<String>,
        explicit: &Vec<String>,
    ) -> (r: Result<(), BridgeError>)
        ensures
            ({
                let merged = merged_flags(
                    defaults.deep_view(),
                    env_flags.deep_view(),
                    explicit.deep_view(),
                );
                let (state, accepted) = configure_outcome(old(self).configured_flags(), merged);
                &&& final(self).configured_flags() == state
                &&& (r is Ok <==> accepted)
                &&& (r is Err ==> r->Err_0 is EngineAlreadyConfigured)
            }),
    {
        let merged = merge_flag_lists(defaults, env_flags, explicit);
        match &self.applied {
            None => {
                self.applied = Some(merged);
                Ok(())
            },
            Some(applied) => {
                if flag_lists_equal(applied, &merged) {
                    Ok(())
                } else {
                    Err(BridgeError::EngineAlreadyConfigured)
                }
            },
        }
    }
}

/// Concatenates the three flag segments in precedence order.
fn merge_flag_lists(defaults: &Vec<String>, env_flags: &Vec<String>, explicit: &Vec<String>) -> (r:
    Vec<String>)
    ensures
        r.deep_view() == merged_flags(
            defaults.deep_view(),
            env_flags.deep_view(),
            explicit.deep_view(),
        ),
{
    let mut out: Vec<String> = Vec::new();
    append_clones(&mut out, defaults);
    append_clones(&mut out, env_flags);
    append_clones(&mut out, explicit);
    proof {
        assert(out.deep_view() =~= defaults.deep_view() + env_flags.deep_view()
            + explicit.deep_view());
    }
    out
}

#[verifier::loop_isolation(false)]
fn append_clones(out: &mut Vec<String>, extra: &Vec<String>)
    ensures
        final(out).deep_view() == old(out).deep_view() + extra.deep_view(),
{
    let mut i: usize = 0;
    while i < extra.len()
        invariant
            i <= extra@.len(),
            out@.len() == old(out)@.len() + i as int,
            forall|j: int| 0 <= j < old(out)@.len() ==> #[trigger] out@[j] == old(out)@[j],
            forall|j: int|
                old(out)@.len() <= j < out@.len() ==> #[trigger] out@[j]@ == extra@[j - old(
                    out,
                )@.len()]@,
        decreases extra@.len() - i,
    {
        out.push(extra[i].clone());
        i = i + 1;
    }
    proof {
        assert(out.deep_view() =~= old(out).deep_view() + extra.deep_view());
    }
}

#[verifier::loop_isolation(false)]
fn flag_lists_equal(a: &Vec<String>, b: &Vec<String>) -> (r: bool)
    ensures
        r == (a.deep_view() == b.deep_view()),
{
    if a.len() != b.len() {
        proof {
            assert(a.deep_view().len() != b.deep_view().len());
        }
        return false;
    }
    let mut i: usize = 0;
    while i < a.len()
        invariant
            i <= a@.len(),
            a@.len() == b@.len(),
            forall|j: int| 0 <= j < i as int ==> #[trigger] a@[j]@ == b@[j]@,
        decreases a@.len() - i,
    {
        if a[i] != b[i] {
            proof {
                assert(a.deep_view()[i as int] != b.deep_view()[i as int]);
            }
            return false;
        }
        i = i + 1;
    }
    proof {
        assert(a.deep_view() =~= b.deep_view());
    }
    true
}

} // verus!
