//! Secrets that are handed over in environment variables.

use vstd::prelude::*;

use crate::secret::{seal, SecretString};
#[allow(unused_imports)]
use crate::views;

verus! {

/// A secret that was taken from an environment variable.
#[derive(Debug)]
pub struct EnvSecret {
    /// The secret.
    pub secret: SecretString,
    /// The variable that held it, which is now to be removed from the
    /// environment.
    pub remove: String,
}

/// What was taken from an environment variable.
pub struct EnvSecretView {
    /// See [`EnvSecret::secret`].
    pub secret: Seq<char>,
    /// See [`EnvSecret::remove`].
    pub remove: Seq<char>,
}

impl View for EnvSecret {
    type V = EnvSecretView;

    open spec fn view(&self) -> EnvSecretView {
        EnvSecretView { secret: self.secret@, remove: self.remove@ }
    }
}

/// What is taken from the variable `name` that has the given value, if it has
/// one.
pub open spec fn env_taken(name: Seq<char>, value: Option<Seq<char>>) -> Option<EnvSecretView> {
    match value {
        Some(plain) => Some(EnvSecretView { secret: plain, remove: name }),
        None => None,
    }
}

/// Takes the secret out of the value that the variable has, if it has one.
/// The plain copy of the value is wiped; the variable is to be removed just
/// where a secret was found in it.
pub fn env_secret_and_remove(env_var_name: &str, value: Option<String>) -> (taken: Option<
    EnvSecret,
>)
    ensures
        views::option_view(taken) == env_taken(env_var_name@, views::option_view(value)),
        match value {
            Some(plain) => {
                &&& taken matches Some(found)
                &&& found.secret@ == plain@
                &&& found.remove@ == env_var_name@
            },
            None => taken is None,
        },
{
    match value {
        Some(plain) => {
            let mut plain = plain;
            Some(EnvSecret { secret: seal(&mut plain), remove: env_var_name.to_owned() })
        },
        None => None,
    }
}

/// The secret that a call for the variable `name` gets, and the environment
/// after it, in which what is to be removed has been removed.
pub open spec fn env_call(env: Map<Seq<char>, Seq<char>>, name: Seq<char>) -> (
    Option<Seq<char>>,
    Map<Seq<char>, Seq<char>>,
) {
    let value = if env.contains_key(name) {
        Some(env[name])
    } else {
        None
    };
    match env_taken(name, value) {
        Some(taken) => (Some(taken.secret), env.remove(taken.remove)),
        None => (None, env),
    }
}

/// The environment after calls for these variables, one after another.
pub open spec fn env_after(env: Map<Seq<char>, Seq<char>>, names: Seq<Seq<char>>) -> Map<
    Seq<char>,
    Seq<char>,
>
    decreases names.len(),
{
    if names.len() == 0 {
        env
    } else {
        env_call(env_after(env, names.drop_last()), names.last()).1
    }
}

/// The secret that the call at place `i` gets, of calls for these variables,
/// one after another.
pub open spec fn env_handed(
    env: Map<Seq<char>, Seq<char>>,
    names: Seq<Seq<char>>,
    i: int,
) -> Option<Seq<char>> {
    env_call(env_after(env, names.take(i)), names[i]).0
}

/// Calls take the variables that they are for out of the environment and leave
/// the others as they are.
pub proof fn law_calls_remove_their_variables(
    env: Map<Seq<char>, Seq<char>>,
    names: Seq<Seq<char>>,
    name: Seq<char>,
)
    ensures
        env_after(env, names).contains_key(name) <==> env.contains_key(name) && !names.contains(
            name,
        ),
        env_after(env, names).contains_key(name) ==> env_after(env, names)[name] == env[name],
    decreases names.len(),
{
    if names.len() > 0 {
        let init = names.drop_last();
        law_calls_remove_their_variables(env, init, name);
        law_calls_remove_their_variables(env, init, names.last());
        assert(names.contains(name) <==> init.contains(name) || names.last() == name) by {
            if init.contains(name) {
                let k = choose|k: int| 0 <= k < init.len() && init[k] == name;
                assert(names[k] == name);
            }
            if names.contains(name) {
                let k = choose|k: int| 0 <= k < names.len() && names[k] == name;
                if k < init.len() {
                    assert(init[k] == name);
                }
            }
            assert(names[names.len() - 1] == names.last());
        }
    }
}

/// A secret is handed out once: of any calls, one after another, the first one
/// for a variable that is set gets its value, and every other call for it gets
/// nothing.
pub proof fn law_secret_is_handed_out_once(
    env: Map<Seq<char>, Seq<char>>,
    names: Seq<Seq<char>>,
    name: Seq<char>,
)
    requires
        env.contains_key(name),
        names.contains(name),
    ensures
        exists|i: int|
            {
                &&& 0 <= i < names.len()
                &&& names[i] == name
                &&& #[trigger] env_handed(env, names, i) == Some(env[name])
                &&& forall|j: int|
                    0 <= j < names.len() && j != i && names[j] == name ==> #[trigger] env_handed(
                        env,
                        names,
                        j,
                    ) is None
            },
{
    let i = names.index_of_first(name)->0;
    names.index_of_first_ensures(name);
    let before = names.take(i);
    assert(!before.contains(name)) by {
        if before.contains(name) {
            let k = choose|k: int| 0 <= k < before.len() && before[k] == name;
            assert(names[k] == name);
        }
    }
    law_calls_remove_their_variables(env, before, name);
    assert(env_handed(env, names, i) == Some(env[name]));
    assert forall|j: int| 0 <= j < names.len() && j != i && names[j] == name implies #[trigger]
        env_handed(env, names, j) is None by {
        assert(names.take(j)[i] == name);
        law_calls_remove_their_variables(env, names.take(j), name);
    }
}

/// A call for a variable that is not set gets nothing and changes nothing.
pub proof fn law_unset_variables_hold_no_secret(
    env: Map<Seq<char>, Seq<char>>,
    name: Seq<char>,
)
    requires
        !env.contains_key(name),
    ensures
        env_call(env, name) == (None::<Seq<char>>, env),
{
}

/// How far a call has come that shares a lock with other calls. One call holds
/// the lock at a time.
pub enum LockStage {
    /// It waits for the lock.
    Waiting,
    /// It holds the lock and has read nothing yet.
    Entered,
    /// It has read its variable, and what it took is still to be removed.
    Taken(Option<EnvSecretView>),
    /// It has removed what it took, and has yet to release the lock.
    Leaving(Option<Seq<char>>),
    /// It is over, with this result.
    Done(Option<Seq<char>>),
}

/// Calls that run side by side, and the environment that they share.
pub struct LockState {
    /// The environment.
    pub env: Map<Seq<char>, Seq<char>>,
    /// The place of the call that holds the lock, if one does.
    pub holder: Option<int>,
    /// How far each call has come.
    pub calls: Seq<LockStage>,
}

/// Calls for these variables, none of which has begun.
pub open spec fn lock_start(
    env: Map<Seq<char>, Seq<char>>,
    names: Seq<Seq<char>>,
) -> LockState {
    LockState { env, holder: None, calls: Seq::new(names.len(), |i: int| LockStage::Waiting) }
}

/// The state after the call at place `i` has gone one step further, if it can.
pub open spec fn lock_step(names: Seq<Seq<char>>, s: LockState, i: int) -> LockState {
    if 0 <= i < names.len() {
        match s.calls[i] {
            LockStage::Waiting => if s.holder is None {
                LockState {
                    holder: Some(i),
                    calls: s.calls.update(i, LockStage::Entered),
                    ..s
                }
            } else {
                s
            },
            LockStage::Entered => {
                let value = if s.env.contains_key(names[i]) {
                    Some(s.env[names[i]])
                } else {
                    None
                };
                LockState {
                    calls: s.calls.update(i, LockStage::Taken(env_taken(names[i], value))),
                    ..s
                }
            },
            LockStage::Taken(Some(taken)) => LockState {
                env: s.env.remove(taken.remove),
                calls: s.calls.update(i, LockStage::Leaving(Some(taken.secret))),
                ..s
            },
            LockStage::Taken(None) => LockState {
                calls: s.calls.update(i, LockStage::Leaving(None)),
                ..s
            },
            LockStage::Leaving(secret) => LockState {
                holder: None,
                calls: s.calls.update(i, LockStage::Done(secret)),
                ..s
            },
            LockStage::Done(_) => s,
        }
    } else {
        s
    }
}

/// The state after the calls have gone further in this order, one step each
/// time.
pub open spec fn lock_run(
    env: Map<Seq<char>, Seq<char>>,
    names: Seq<Seq<char>>,
    order: Seq<int>,
) -> LockState
    decreases order.len(),
{
    if order.len() == 0 {
        lock_start(env, names)
    } else {
        lock_step(names, lock_run(env, names, order.drop_last()), order.last())
    }
}

/// The result of a call that has removed what it took.
pub open spec fn lock_result(stage: LockStage) -> Option<Option<Seq<char>>> {
    match stage {
        LockStage::Leaving(secret) => Some(secret),
        LockStage::Done(secret) => Some(secret),
        _ => None,
    }
}

/// Whether the call is at a stage between taking the lock and releasing it.
spec fn is_locked(stage: LockStage) -> bool {
    stage is Entered || stage is Taken || stage is Leaving
}

/// What is true of one call at every moment: it holds the lock just where its
/// stage says so, and what it took is what its variable held.
spec fn call_in_order(
    env: Map<Seq<char>, Seq<char>>,
    names: Seq<Seq<char>>,
    s: LockState,
    i: int,
) -> bool {
    &&& is_locked(s.calls[i]) <==> s.holder == Some(i)
    &&& match s.calls[i] {
        LockStage::Taken(Some(taken)) => {
            &&& s.env.contains_key(names[i])
            &&& taken.remove == names[i]
            &&& taken.secret == env[names[i]]
        },
        LockStage::Taken(None) => !s.env.contains_key(names[i]),
        _ => true,
    }
    &&& lock_result(s.calls[i]) matches Some(result) ==> {
        &&& !s.env.contains_key(names[i])
        &&& result is Some ==> env.contains_key(names[i]) && result == Some(env[names[i]])
    }
}

/// What is true of the calls at every moment.
spec fn lock_in_order(
    env: Map<Seq<char>, Seq<char>>,
    names: Seq<Seq<char>>,
    s: LockState,
) -> bool {
    &&& s.calls.len() == names.len()
    &&& s.holder matches Some(i) ==> 0 <= i < names.len()
    &&& forall|i: int| 0 <= i < names.len() ==> #[trigger] call_in_order(env, names, s, i)
    &&& forall|k: Seq<char>| #[trigger]
        s.env.contains_key(k) ==> env.contains_key(k) && s.env[k] == env[k]
    &&& forall|k: Seq<char>|
        env.contains_key(k) && !#[trigger] s.env.contains_key(k) ==> exists|i: int|
            0 <= i < names.len() && names[i] == k && #[trigger] lock_result(s.calls[i]) == Some(
                Some(env[k]),
            )
    &&& forall|i: int, j: int|
        0 <= i < names.len() && 0 <= j < names.len() && i != j && names[i] == names[j] ==> !(
        #[trigger] lock_result(s.calls[i]) matches Some(Some(_)) && #[trigger] lock_result(
            s.calls[j],
        ) matches Some(Some(_)))
}

/// A step of one call keeps the calls in order.
proof fn lemma_step_keeps_order(
    env: Map<Seq<char>, Seq<char>>,
    names: Seq<Seq<char>>,
    s: LockState,
    at: int,
)
    requires
        lock_in_order(env, names, s),
    ensures
        lock_in_order(env, names, lock_step(names, s, at)),
{
    let t = lock_step(names, s, at);
    if 0 <= at < names.len() {
        assert(call_in_order(env, names, s, at));
        assert forall|i: int| 0 <= i < names.len() implies #[trigger] call_in_order(
            env,
            names,
            t,
            i,
        ) by {
            assert(call_in_order(env, names, s, i));
        }
        assert forall|k: Seq<char>|
            env.contains_key(k) && !#[trigger] t.env.contains_key(k) implies exists|i: int|
            0 <= i < names.len() && names[i] == k && #[trigger] lock_result(t.calls[i]) == Some(
                Some(env[k]),
            ) by {
            if s.env.contains_key(k) {
                assert(lock_result(t.calls[at]) == Some(Some(env[k])));
            } else {
                let i = choose|i: int|
                    0 <= i < names.len() && names[i] == k && #[trigger] lock_result(s.calls[i])
                        == Some(Some(env[k]));
                assert(lock_result(t.calls[i]) == Some(Some(env[k])));
            }
        }
        assert forall|i: int, j: int|
            0 <= i < names.len() && 0 <= j < names.len() && i != j && names[i]
                == names[j] implies !(#[trigger] lock_result(t.calls[i]) matches Some(Some(_))
            && #[trigger] lock_result(t.calls[j]) matches Some(Some(_))) by {
            assert(call_in_order(env, names, s, i));
            assert(call_in_order(env, names, s, j));
            assert(!(lock_result(s.calls[i]) matches Some(Some(_)) && lock_result(
                s.calls[j],
            ) matches Some(Some(_))));
        }
    }
}

/// Calls stay in order, however they go on side by side.
proof fn lemma_run_keeps_order(
    env: Map<Seq<char>, Seq<char>>,
    names: Seq<Seq<char>>,
    order: Seq<int>,
)
    ensures
        lock_in_order(env, names, lock_run(env, names, order)),
    decreases order.len(),
{
    if order.len() == 0 {
        let s = lock_start(env, names);
        assert forall|i: int| 0 <= i < names.len() implies #[trigger] call_in_order(
            env,
            names,
            s,
            i,
        ) by {
            assert(s.calls[i] is Waiting);
        }
    } else {
        lemma_run_keeps_order(env, names, order.drop_last());
        lemma_step_keeps_order(
            env,
            names,
            lock_run(env, names, order.drop_last()),
            order.last(),
        );
    }
}

/// A secret is handed out once under a lock, however the calls run side by
/// side: once a call for a variable that was set is over, the variable is
/// gone, one call has its value, and every other call for it that is over has
/// nothing.
pub proof fn law_lock_hands_secret_out_once(
    env: Map<Seq<char>, Seq<char>>,
    names: Seq<Seq<char>>,
    order: Seq<int>,
    at: int,
)
    requires
        0 <= at < names.len(),
        env.contains_key(names[at]),
        lock_run(env, names, order).calls[at] is Done,
    ensures
        !lock_run(env, names, order).env.contains_key(names[at]),
        exists|i: int|
            {
                &&& 0 <= i < names.len()
                &&& names[i] == names[at]
                &&& #[trigger] lock_result(lock_run(env, names, order).calls[i]) == Some(
                    Some(env[names[at]]),
                )
                &&& forall|j: int|
                    0 <= j < names.len() && j != i && names[j] == names[at] && (
                    #[trigger] lock_run(env, names, order).calls[j]) is Done ==> lock_run(
                        env,
                        names,
                        order,
                    ).calls[j] == LockStage::Done(None)
            },
{
    let s = lock_run(env, names, order);
    lemma_run_keeps_order(env, names, order);
    assert(call_in_order(env, names, s, at));
    let i = choose|i: int|
        0 <= i < names.len() && names[i] == names[at] && #[trigger] lock_result(s.calls[i])
            == Some(Some(env[names[at]]));
    assert forall|j: int|
        0 <= j < names.len() && j != i && names[j] == names[at] && (
        #[trigger] s.calls[j]) is Done implies s.calls[j] == LockStage::Done(None) by {
        assert(!(lock_result(s.calls[i]) matches Some(Some(_)) && lock_result(
            s.calls[j],
        ) matches Some(Some(_))));
    }
}

/// Whatever a call under a lock ends with, it is what its variable held, and
/// variables that no call is for are left as they are.
pub proof fn law_lock_hands_out_what_was_set(
    env: Map<Seq<char>, Seq<char>>,
    names: Seq<Seq<char>>,
    order: Seq<int>,
    at: int,
    other: Seq<char>,
)
    requires
        0 <= at < names.len(),
    ensures
        lock_run(env, names, order).calls[at] matches LockStage::Done(Some(secret)) ==> {
            &&& env.contains_key(names[at])
            &&& env[names[at]] == secret
        },
        !names.contains(other) ==> {
            &&& lock_run(env, names, order).env.contains_key(other) <==> env.contains_key(other)
            &&& env.contains_key(other) ==> lock_run(env, names, order).env[other] == env[other]
        },
{
    lemma_run_keeps_order(env, names, order);
    assert(call_in_order(env, names, lock_run(env, names, order), at));
}

/// A call that no other call runs beside does what a call does: it gets the
/// same secret and leaves the same environment.
pub proof fn law_lock_alone_changes_nothing(env: Map<Seq<char>, Seq<char>>, name: Seq<char>)
    ensures
        lock_run(env, seq![name], seq![0int, 0, 0, 0]) == (LockState {
            env: env_call(env, name).1,
            holder: None,
            calls: seq![LockStage::Done(env_call(env, name).0)],
        }),
{
    let order = seq![0int, 0, 0, 0];
    let names = seq![name];
    reveal_with_fuel(lock_run, 5);
    assert(order.drop_last().drop_last().drop_last().drop_last().len() == 0);
    assert(lock_run(env, names, order).calls =~= seq![LockStage::Done(env_call(env, name).0)]);
}

} // verus!
