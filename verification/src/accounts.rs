//! The account-authorization protocol.
//!
//! Every operation declares, once, an ordered list of account roles, each
//! with two flags (must the account have signed; must it be writable) and,
//! for positions that always hold one well-known account, a fixed address.
//! Some operations add one trailing variable-length role that consumes the
//! remainder of the supplied list (for example, all of a validator's stake
//! accounts). The same declaration serves two consumers: off-chain it
//! emits an ordered account list for an instruction, and on-chain it
//! validates a supplied list positionally before a handler touches any
//! account. A handler can therefore trust that the account in a role is
//! exactly what the declaration says — by construction, never by ad hoc
//! checks in handler bodies.

use vstd::prelude::*;

use crate::address::Address;
use crate::error::LidoError;

verus! {

/// One position of an operation's declared account list.
#[derive(Clone, Copy, Debug)]
pub struct AccountRole {
    /// The supplied account must have signed the operation.
    pub require_signer: bool,
    /// The supplied account must be writable.
    pub require_writable: bool,
    /// The position must hold exactly this account (a well-known program
    /// or variable address), or any account when `None`.
    pub fixed_address: Option<Address>,
}

/// One entry of an account list as the substrate supplies it to a
/// handler: the address plus the flags the transaction gave it.
#[derive(Clone, Copy, Debug, PartialEq, Eq, Structural)]
pub struct SuppliedAccount {
    pub address: Address,
    pub is_signer: bool,
    pub is_writable: bool,
}

/// One entry of an account list as an instruction names it: the address
/// plus the flags the operation demands of it.
#[derive(Clone, Copy, Debug, PartialEq, Eq, Structural)]
pub struct AccountMeta {
    pub address: Address,
    pub is_signer: bool,
    pub is_writable: bool,
}

/// An instruction's account list, read back as the substrate would
/// supply it to the program: each named account arrives with exactly the
/// flags the instruction gave it.
pub open spec fn spec_as_supplied(metas: Seq<AccountMeta>) -> Seq<SuppliedAccount> {
    metas.map_values(
        |m: AccountMeta| SuppliedAccount {
            address: m.address,
            is_signer: m.is_signer,
            is_writable: m.is_writable,
        },
    )
}

/// Whether one supplied account satisfies one declared role: every flag
/// the role demands is present, and a fixed-address position holds
/// exactly the declared account.
pub open spec fn spec_role_accepts(role: AccountRole, account: SuppliedAccount) -> bool {
    &&& (role.require_signer ==> account.is_signer)
    &&& (role.require_writable ==> account.is_writable)
    &&& (match role.fixed_address {
        Some(a) => account.address == a,
        None => true,
    })
}

/// Whether a supplied list satisfies a declared fixed-role list
/// positionally (lengths are checked separately).
pub open spec fn spec_roles_accept(roles: Seq<AccountRole>, accounts: Seq<SuppliedAccount>) -> bool {
    forall|i: int| 0 <= i < roles.len() && i < accounts.len() ==> spec_role_accepts(roles[i], #[trigger] accounts[i])
}

fn role_accepts(role: &AccountRole, account: &SuppliedAccount) -> (r: bool)
    ensures
        r == spec_role_accepts(*role, *account),
{
    if role.require_signer && !account.is_signer {
        return false;
    }
    if role.require_writable && !account.is_writable {
        return false;
    }
    match &role.fixed_address {
        Some(a) => account.address == *a,
        None => true,
    }
}

/// Validate a supplied account list against an operation's declared
/// roles, positionally.
///
/// Succeeds exactly when the list has exactly one account per role and
/// every account carries the flags (and, where fixed, the address) its
/// role demands; any violation fails with `AuthorizationMismatch`. On
/// success a handler may read the account in role `i` as `supplied[i]`.
pub fn validate_account_list(roles: &Vec<AccountRole>, supplied: &Vec<SuppliedAccount>) -> (r:
    Result<(), LidoError>)
    ensures
        r == if supplied@.len() == roles@.len() && spec_roles_accept(roles@, supplied@) {
            Ok::<(), LidoError>(())
        } else {
            Err::<(), LidoError>(LidoError::AuthorizationMismatch)
        },
{
    if supplied.len() != roles.len() {
        return Err(LidoError::AuthorizationMismatch);
    }
    let n = roles.len();
    for i in 0..n
        invariant
            n == roles@.len(),
            n == supplied@.len(),
            forall|j: int| 0 <= j < i ==> spec_role_accepts(roles@[j], #[trigger] supplied@[j]),
    {
        if !role_accepts(&roles[i], &supplied[i]) {
            return Err(LidoError::AuthorizationMismatch);
        }
    }
    Ok(())
}

/// Validate a supplied account list against declared fixed roles followed
/// by one trailing variable-length role.
///
/// Succeeds exactly when the list is at least as long as the fixed roles,
/// the fixed prefix validates positionally, and every remaining account
/// satisfies the trailing role; any violation fails with
/// `AuthorizationMismatch`. On success a handler may read the remainder
/// (`supplied[roles.len()..]`) as the variable-length range.
pub fn validate_account_list_with_tail(
    roles: &Vec<AccountRole>,
    tail_role: &AccountRole,
    supplied: &Vec<SuppliedAccount>,
) -> (r: Result<(), LidoError>)
    ensures
        r == if supplied@.len() >= roles@.len() && spec_roles_accept(roles@, supplied@) && (forall|
            i: int,
        | roles@.len() <= i < supplied@.len() ==> spec_role_accepts(*tail_role, #[trigger] supplied@[i])) {
            Ok::<(), LidoError>(())
        } else {
            Err::<(), LidoError>(LidoError::AuthorizationMismatch)
        },
{
    if supplied.len() < roles.len() {
        return Err(LidoError::AuthorizationMismatch);
    }
    let n = roles.len();
    for i in 0..n
        invariant
            n == roles@.len(),
            n <= supplied@.len(),
            forall|j: int| 0 <= j < i ==> spec_role_accepts(roles@[j], #[trigger] supplied@[j]),
    {
        if !role_accepts(&roles[i], &supplied[i]) {
            return Err(LidoError::AuthorizationMismatch);
        }
    }
    let m = supplied.len();
    for i in n..m
        invariant
            n == roles@.len(),
            m == supplied@.len(),
            n <= m,
            forall|j: int| 0 <= j < n ==> spec_role_accepts(roles@[j], #[trigger] supplied@[j]),
            forall|j: int| n <= j < i ==> spec_role_accepts(*tail_role, #[trigger] supplied@[j]),
    {
        if !role_accepts(tail_role, &supplied[i]) {
            return Err(LidoError::AuthorizationMismatch);
        }
    }
    Ok(())
}

/// How many roles of a declared list leave their address open (to be
/// resolved by the instruction builder).
pub open spec fn spec_count_open(roles: Seq<AccountRole>) -> int
    decreases roles.len(),
{
    if roles.len() == 0 {
        0
    } else {
        spec_count_open(roles.drop_last()) + if roles.last().fixed_address is None {
            1int
        } else {
            0int
        }
    }
}

proof fn lemma_count_open_take_succ(roles: Seq<AccountRole>, i: int)
    requires
        0 <= i < roles.len(),
    ensures
        spec_count_open(roles.take(i + 1)) == spec_count_open(roles.take(i))
            + if roles[i].fixed_address is None {
            1int
        } else {
            0int
        },
{
    assert(roles.take(i + 1).drop_last() =~= roles.take(i));
    assert(roles.take(i + 1).last() == roles[i]);
}

/// The address the builder assigns to role `i`: the declared fixed
/// address where there is one, else the next resolved address in order.
pub open spec fn spec_built_address(
    roles: Seq<AccountRole>,
    addresses: Seq<Address>,
    i: int,
) -> Address {
    match roles[i].fixed_address {
        Some(a) => a,
        None => addresses[spec_count_open(roles.take(i))],
    }
}

/// Emit the ordered account list of an instruction from an operation's
/// declared roles and the resolved addresses of its open positions, in
/// declaration order. Each entry carries exactly the flags its role
/// declares, so a list built here always validates against the same
/// declaration.
pub fn build_account_metas(roles: &Vec<AccountRole>, addresses: &Vec<Address>) -> (r: Vec<
    AccountMeta,
>)
    requires
        addresses@.len() == spec_count_open(roles@),
    ensures
        r@.len() == roles@.len(),
        forall|i: int|
            0 <= i < roles@.len() ==> #[trigger] r@[i] == (AccountMeta {
                address: spec_built_address(roles@, addresses@, i),
                is_signer: roles@[i].require_signer,
                is_writable: roles@[i].require_writable,
            }),
{
    let mut out: Vec<AccountMeta> = Vec::new();
    let mut next: usize = 0;
    let n = roles.len();
    let address_count = addresses.len();
    proof {
        assert(roles@.take(0) =~= Seq::<AccountRole>::empty());
    }
    for i in 0..n
        invariant
            n == roles@.len(),
            addresses@.len() == spec_count_open(roles@),
            address_count == addresses@.len(),
            out@.len() == i,
            next == spec_count_open(roles@.take(i as int)),
            forall|j: int|
                0 <= j < i ==> #[trigger] out@[j] == (AccountMeta {
                    address: spec_built_address(roles@, addresses@, j),
                    is_signer: roles@[j].require_signer,
                    is_writable: roles@[j].require_writable,
                }),
    {
        proof {
            lemma_count_open_take_succ(roles@, i as int);
            lemma_count_open_take_le(roles@, i + 1);
        }
        let address = match &roles[i].fixed_address {
            Some(a) => *a,
            None => {
                let a = addresses[next];
                next = next + 1;
                a
            },
        };
        out.push(
            AccountMeta {
                address,
                is_signer: roles[i].require_signer,
                is_writable: roles[i].require_writable,
            },
        );
    }
    out
}

proof fn lemma_count_open_take_le(roles: Seq<AccountRole>, i: int)
    requires
        0 <= i <= roles.len(),
    ensures
        spec_count_open(roles.take(i)) <= spec_count_open(roles),
    decreases roles.len() - i,
{
    if i == roles.len() {
        assert(roles.take(i) =~= roles);
    } else {
        lemma_count_open_take_succ(roles, i);
        lemma_count_open_take_le(roles, i + 1);
    }
}

/// A list built from a declaration validates against that declaration:
/// the two consumers of one declared role list agree. (The built list
/// names each account with exactly the flags the roles demand, so reading
/// it back as a supplied list passes validation.)
pub proof fn lemma_built_list_validates(
    roles: Seq<AccountRole>,
    addresses: Seq<Address>,
    supplied: Seq<SuppliedAccount>,
)
    requires
        addresses.len() == spec_count_open(roles),
        supplied.len() == roles.len(),
        forall|i: int|
            0 <= i < roles.len() ==> #[trigger] supplied[i] == (SuppliedAccount {
                address: spec_built_address(roles, addresses, i),
                is_signer: roles[i].require_signer,
                is_writable: roles[i].require_writable,
            }),
    ensures
        spec_roles_accept(roles, supplied),
{
}

} // verus!
