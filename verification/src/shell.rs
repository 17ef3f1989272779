//! Interactive shells and the tokens by which they are found again.

use vstd::prelude::*;
use crate::error::{Error, ErrorKind};
use crate::ident::{is_random_uuid, random_id};
use crate::proc::is_negative_reply;

verus! {

/// The handle under which a shell is registered. It is made when the shell
/// is opened and is the only way to find, list or close the shell later.
#[derive(Clone, Copy, Debug, PartialEq, Eq, Hash, Structural)]
pub struct ShellToken {
    pub id: u128,
}

/// An interactive shell: a pseudo-terminal of `cols` by `rows` on a channel
/// of its own.
#[derive(Clone, Copy, Debug, PartialEq, Eq, Structural)]
pub struct Shell {
    pub token: ShellToken,
    /// When the shell was opened, on a clock that never runs backwards.
    pub created_at: u64,
    pub cols: u16,
    pub rows: u16,
}

/// What a listing shows of a shell.
#[derive(Clone, Copy, Debug, PartialEq, Eq, Structural)]
pub struct ShellInfo {
    pub token: ShellToken,
    pub created_at: u64,
}

impl ShellToken {
    /// A new token, drawn at random.
    pub fn generate() -> (token: ShellToken)
        ensures
            is_random_uuid(token.id),
    {
        ShellToken { id: random_id() }
    }
}

impl Shell {
    /// A shell of `cols` by `rows` that was opened at `created_at`, under a
    /// token of its own.
    pub fn new(cols: u16, rows: u16, created_at: u64) -> (shell: Shell)
        ensures
            shell.cols == cols,
            shell.rows == rows,
            shell.created_at == created_at,
            is_random_uuid(shell.token.id),
    {
        Shell { token: ShellToken::generate(), created_at, cols, rows }
    }

    /// The shell on a channel whose peer answered the request for a login
    /// shell with `reply`: a shell of `cols` by `rows` that was opened at
    /// `created_at`, unless the peer rejected the request or gave no answer.
    pub fn open(cols: u16, rows: u16, created_at: u64, reply: Result<bool, Error>) -> (result: Result<
        Shell,
        Error,
    >)
        ensures
            match reply {
                Ok(true) => {
                    &&& result matches Ok(shell)
                    &&& shell.cols == cols
                    &&& shell.rows == rows
                    &&& shell.created_at == created_at
                    &&& is_random_uuid(shell.token.id)
                },
                Ok(false) => result matches Err(e) && is_negative_reply(e),
                Err(e) => result == Err::<Shell, Error>(e),
            },
    {
        match reply {
            Ok(true) => Ok(Shell::new(cols, rows, created_at)),
            Ok(false) => Err(Error::new(ErrorKind::NegativeReply, "Negative reply")),
            Err(e) => Err(e),
        }
    }

    /// What a listing shows of this shell.
    pub open spec fn spec_info(&self) -> ShellInfo {
        ShellInfo { token: self.token, created_at: self.created_at }
    }

    /// What a listing shows of this shell.
    #[verifier::when_used_as_spec(spec_info)]
    pub fn info(&self) -> (info: ShellInfo)
        ensures
            info == self.spec_info(),
    {
        ShellInfo { token: self.token, created_at: self.created_at }
    }
}

/// Whether `list` is in the order of creation, oldest first.
pub open spec fn oldest_first(list: Seq<ShellInfo>) -> bool {
    forall|i: int, j: int| 0 <= i <= j < list.len() ==> list[i].created_at <= list[j].created_at
}

/// Exchanging two entries of a list changes nothing of what it holds.
proof fn lemma_exchange_keeps_entries(list: Seq<ShellInfo>, i: int, j: int)
    requires
        0 <= i < list.len(),
        0 <= j < list.len(),
    ensures
        list.update(i, list[j]).update(j, list[i]).to_multiset() == list.to_multiset(),
{
    broadcast use vstd::seq_lib::to_multiset_update, vstd::seq_lib::to_multiset_contains;

    let once = list.update(i, list[j]);
    assert(list.contains(list[i]));
    assert(list.contains(list[j]));
    assert(once.update(j, list[i]).to_multiset() =~= list.to_multiset());
}

/// Whether `list` names each shell of `shells` exactly once, as its listing
/// shows it, and nothing else.
pub open spec fn names_each_once(shells: Map<u128, Shell>, list: Seq<ShellInfo>) -> bool {
    &&& list.len() == shells.len()
    &&& forall|i: int|
        0 <= i < list.len() ==> shells.contains_key((#[trigger] list[i]).token.id)
            && shells[list[i].token.id].spec_info() == list[i]
    &&& forall|i: int, j: int| 0 <= i < j < list.len() ==> list[i].token != list[j].token
    &&& forall|id: u128| #[trigger]
        shells.contains_key(id) ==> exists|i: int|
            0 <= i < list.len() && (#[trigger] list[i]).token.id == id
}

/// A list that holds the same entries as one that names each shell once
/// names each shell once too, whatever its order.
pub proof fn lemma_reordered_names_each_once(
    shells: Map<u128, Shell>,
    before: Seq<ShellInfo>,
    after: Seq<ShellInfo>,
)
    requires
        names_each_once(shells, before),
        before.to_multiset() == after.to_multiset(),
    ensures
        names_each_once(shells, after),
{
    broadcast use vstd::seq_lib::to_multiset_len, vstd::seq_lib::to_multiset_contains;

    assert forall|i: int| 0 <= i < after.len() implies shells.contains_key(
        (#[trigger] after[i]).token.id,
    ) && shells[after[i].token.id].spec_info() == after[i] by {
        assert(after.contains(after[i]));
        assert(after.to_multiset().count(after[i]) > 0);
        assert(before.to_multiset().count(after[i]) > 0);
        assert(before.contains(after[i]));
        let k = choose|k: int| 0 <= k < before.len() && before[k] == after[i];
        assert(shells.contains_key(before[k].token.id));
    }
    assert(before.no_duplicates()) by {
        assert forall|i: int, j: int|
            0 <= i < before.len() && 0 <= j < before.len() && i != j implies before[i]
            != before[j] by {
            if i < j {
                assert(before[i].token != before[j].token);
            } else {
                assert(before[j].token != before[i].token);
            }
        }
    }
    before.lemma_multiset_has_no_duplicates();
    after.lemma_multiset_has_no_duplicates_conv();
    assert forall|i: int, j: int| 0 <= i < j < after.len() implies after[i].token
        != after[j].token by {
        if after[i].token == after[j].token {
            assert(shells[after[i].token.id].spec_info() == after[i]);
            assert(shells[after[j].token.id].spec_info() == after[j]);
            assert(after[i] == after[j]);
        }
    }
    assert(after.len() == after.to_multiset().len());
    assert(before.len() == before.to_multiset().len());
    assert forall|id: u128| #[trigger] shells.contains_key(id) implies exists|i: int|
        0 <= i < after.len() && (#[trigger] after[i]).token.id == id by {
        let k = choose|k: int| 0 <= k < before.len() && (#[trigger] before[k]).token.id == id;
        assert(before.contains(before[k]));
        assert(before.to_multiset().count(before[k]) > 0);
        assert(after.to_multiset().count(before[k]) > 0);
        assert(after.contains(before[k]));
        let i = choose|i: int| 0 <= i < after.len() && after[i] == before[k];
        assert(after[i].token.id == id);
    }
}

/// Whether no two shells of `shells` were created at the same moment.
pub open spec fn created_apart(shells: Map<u128, Shell>) -> bool {
    forall|i: u128, j: u128|
        shells.contains_key(i) && shells.contains_key(j) && i != j ==> (#[trigger] shells[i]).created_at
            != (#[trigger] shells[j]).created_at
}

/// Two listings of the same shells, none of which were created at the same
/// moment, agree in their first `n` places.
proof fn lemma_listings_agree_up_to(
    shells: Map<u128, Shell>,
    one: Seq<ShellInfo>,
    other: Seq<ShellInfo>,
    n: int,
)
    requires
        names_each_once(shells, one),
        names_each_once(shells, other),
        oldest_first(one),
        oldest_first(other),
        created_apart(shells),
        0 <= n <= one.len(),
    ensures
        forall|i: int| 0 <= i < n ==> one[i] == other[i],
    decreases n,
{
    if n > 0 {
        lemma_listings_agree_up_to(shells, one, other, n - 1);
        let i = n - 1;
        assert(shells.contains_key(one[i].token.id));
        assert(shells.contains_key(other[i].token.id));
        let j = choose|j: int| 0 <= j < other.len() && (#[trigger] other[j]).token.id == one[i].token.id;
        let k = choose|k: int| 0 <= k < one.len() && (#[trigger] one[k]).token.id == other[i].token.id;
        assert(other[j] == one[i]);
        assert(one[k] == other[i]);
        if j < i {
            assert(one[j] == other[j]);
            assert(one[j].token == one[i].token);
        } else if k < i {
            assert(other[k] == one[k]);
            assert(other[k].token == other[i].token);
        } else if j > i && k > i {
            assert(other[i].token != other[j].token);
            assert(shells[other[i].token.id].created_at != shells[other[j].token.id].created_at);
            assert(other[i].created_at < other[j].created_at);
            assert(one[i].created_at <= one[k].created_at);
        }
    }
}

/// Where no two shells were created at the same moment, there is one
/// listing of them that is oldest first: the order in which the shells were
/// opened or closed, or in which a listing was put together, plays no part.
pub proof fn lemma_listing_is_determined(
    shells: Map<u128, Shell>,
    one: Seq<ShellInfo>,
    other: Seq<ShellInfo>,
)
    requires
        names_each_once(shells, one),
        names_each_once(shells, other),
        oldest_first(one),
        oldest_first(other),
        created_apart(shells),
    ensures
        one == other,
{
    lemma_listings_agree_up_to(shells, one, other, one.len() as int);
    assert(one =~= other);
}

/// Sorts `list` by creation time, oldest first. The entries stay the same.
pub fn sort_oldest_first(list: &mut Vec<ShellInfo>)
    ensures
        oldest_first(final(list)@),
        final(list)@.to_multiset() == old(list)@.to_multiset(),
{
    let n = list.len();
    let mut i: usize = 1;
    while i < n
        invariant
            list.len() == n,
            1 <= i,
            i <= n || n == 0,
            list@.to_multiset() == old(list)@.to_multiset(),
            forall|a: int, b: int| 0 <= a <= b < i && b < n ==> list[a].created_at <= list[b].created_at,
        decreases n - i,
    {
        let mut j: usize = i;
        while j > 0 && list[j - 1].created_at > list[j].created_at
            invariant
                list.len() == n,
                j <= i < n,
                list@.to_multiset() == old(list)@.to_multiset(),
                forall|a: int, b: int|
                    0 <= a <= b <= i && a != j && b != j ==> list[a].created_at
                        <= list[b].created_at,
                forall|b: int| j < b <= i ==> list[j as int].created_at <= list[b].created_at,
            decreases j,
        {
            let earlier = list[j - 1];
            let later = list[j];
            proof {
                lemma_exchange_keeps_entries(list@, j - 1, j as int);
            }
            list.set(j - 1, later);
            list.set(j, earlier);
            j -= 1;
        }
        i += 1;
    }
}

} // verus!
