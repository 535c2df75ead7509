//! Return addresses on a stack, from the words read at the stack pointer.
use vstd::prelude::*;

verus! {

/// The highest user-mode address: a return address into the kernel lies
/// above it.
pub const USER_ADDRESS_LIMIT: u64 = 0x7FFF_FFFF_FFFF;

/// How many stack words `find_return_addresses` looks at.
pub const MAX_DEPTH: usize = 15;

/// Whether `value` is an address in the kernel half.
pub open spec fn is_kernel_address(value: u64) -> bool {
    value > USER_ADDRESS_LIMIT
}

/// The return address on top of the stack at `rsp`, whose first word is
/// `top` (`None` when `rsp` does not point to valid memory): the word if it
/// is a kernel address, else none. A null `rsp` has none.
pub fn top_return_address(rsp: u64, top: Option<u64>) -> (r: Option<u64>)
    ensures
        r == (match top {
            Some(v) if rsp != 0 && is_kernel_address(v) => Some(v),
            _ => None,
        }),
{
    if rsp == 0 {
        return None;
    }
    match top {
        None => None,
        Some(return_address) => {
            if return_address > USER_ADDRESS_LIMIT {
                Some(return_address)
            } else {
                None
            }
        },
    }
}

/// The kernel addresses among the stack words `stack`, in stack order.
pub fn find_return_addresses(stack: &Vec<u64>) -> (r: Option<Vec<u64>>)
    ensures
        r is Some,
        r.unwrap()@ == stack@.filter(|v: u64| is_kernel_address(v)),
{
    let mut return_addresses: Vec<u64> = Vec::new();
    let mut i: usize = 0;
    while i < stack.len()
        invariant
            i <= stack@.len(),
            return_addresses@ == stack@.take(i as int).filter(|v: u64| is_kernel_address(v)),
        decreases stack@.len() - i,
    {
        let item = stack[i];
        proof {
            reveal(Seq::filter);
            assert(stack@.take(i + 1).drop_last() =~= stack@.take(i as int));
        }
        if item > USER_ADDRESS_LIMIT {
            return_addresses.push(item);
        }
        i = i + 1;
    }
    assert(stack@.take(stack@.len() as int) =~= stack@);
    Some(return_addresses)
}

} // verus!
