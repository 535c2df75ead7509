//! Hooks: shadow copies of pages, for a function or for data.
use vstd::prelude::*;

use crate::nt::addresses::{base_page_offset, PhysicalAddress};
use crate::nt::inline_hook::{trampoline_outcome, InlineHook, InlineHookError, JMP_SHELLCODE_LEN};

pub mod npt;
pub mod testing;

verus! {

pub enum HookType {
    /// Creates a shadow page to hook a function.
    Function { inline_hook: InlineHook },
    /// Creates a shadow page to hide some data.
    Page,
}

pub struct Hook {
    /// Addresses of the original function / page.
    pub original_va: u64,
    pub original_pa: PhysicalAddress,
    /// Addresses of the copied page. If it's a function, the exact location
    /// inside the page is stored.
    pub hook_va: u64,
    pub hook_pa: PhysicalAddress,
    pub page: Vec<u8>,
    pub page_va: u64,
    pub page_pa: PhysicalAddress,
    pub hook_type: HookType,
}

/// The 4 KiB page of the original of a hook.
pub open spec fn original_page(hook: Hook) -> u64 {
    hook.original_pa@ & !0xfffu64
}

/// The 4 KiB page of the copy of a hook.
pub open spec fn copy_page(hook: Hook) -> u64 {
    hook.hook_pa@ & !0xfffu64
}

/// `i` is the first index of a hook for which `p` holds.
pub open spec fn first_match(hooks: Seq<Hook>, p: spec_fn(Hook) -> bool, i: int) -> bool {
    &&& 0 <= i < hooks.len()
    &&& p(hooks[i])
    &&& forall|j: int| 0 <= j < i ==> !p(#[trigger] hooks[j])
}

/// What a search for the first hook with `p` finds.
pub open spec fn found(hooks: Seq<Hook>, p: spec_fn(Hook) -> bool, r: Option<&Hook>) -> bool {
    match r {
        Some(h) => exists|i: int| first_match(hooks, p, i) && *h == hooks[i],
        None => forall|j: int| 0 <= j < hooks.len() ==> !p(#[trigger] hooks[j]),
    }
}

/// The hooks whose original page is the 4 KiB page of `pa`.
pub open spec fn on_page(pa: u64) -> spec_fn(Hook) -> bool {
    |h: Hook| original_page(h) == pa & !0xfffu64
}

/// The hooks whose original virtual address is `address`.
pub open spec fn at_address(address: u64) -> spec_fn(Hook) -> bool {
    |h: Hook| h.original_va == address
}

/// The UTF-16 code units of a character: itself below 0x10000, else a
/// surrogate pair.
pub open spec fn utf16_of(c: char) -> Seq<u16> {
    let v = c as u32;
    if v < 0x10000 {
        seq![v as u16]
    } else {
        seq![(0xD800 + ((v - 0x10000) as u32 >> 10u32)) as u16, (0xDC00 + ((v - 0x10000) as u32
            & 0x3ffu32)) as u16]
    }
}

/// The UTF-16 code units of a string, character by character.
pub open spec fn utf16_units(s: Seq<char>) -> Seq<u16>
    decreases s.len(),
{
    if s.len() == 0 {
        Seq::empty()
    } else {
        utf16_units(s.drop_last()) + utf16_of(s.last())
    }
}

/// The UTF-16 code units of `name` with a nul at the end, unless they end
/// with one already.
pub open spec fn wide_name(name: Seq<char>) -> Seq<u16> {
    let units = utf16_units(name);
    if units.len() > 0 && units.last() == 0 {
        units
    } else {
        units.push(0)
    }
}

/// Whether a name holds a nul before its last character, which
/// `widestring::U16CString::from_str` refuses.
pub open spec fn has_interior_nul(name: Seq<char>) -> bool {
    exists|i: int| 0 <= i < name.len() - 1 && name[i] == '\0'
}

/// Calls `widestring::U16CString::from_str` and `into_vec_with_nul` on the
/// result: the name encoded as UTF-16 with a nul added at the end where it
/// does not end with one. It fails exactly for a nul anywhere but in the
/// last position.
#[verifier::external_body]
fn wide_c_string(name: &str) -> (r: Option<Vec<u16>>)
    ensures
        r is None <==> has_interior_nul(name@),
        r matches Some(v) ==> v@ == wide_name(name@),
{
    widestring::U16CString::from_str(name).ok().map(|s| s.into_vec_with_nul())
}

impl Hook {
    /// Returns the address of the function in the copied page: the start of
    /// the copied page plus the function's offset into its page.
    pub fn address_in_page(page_start: u64, address: u64) -> (r: u64)
        requires
            page_start + (address & 0xfffu64) <= u64::MAX,
        ensures
            r == page_start + (address & 0xfffu64),
    {
        let base_offset = base_page_offset(address);
        page_start + base_offset
    }

    /// A copy of the 4 KiB page that holds `address`, made by `read_page`
    /// from the page's start, together with the address of the copy; none
    /// for the page at 0.
    pub fn copy_page<R: Fn(u64) -> (Vec<u8>, u64)>(address: u64, read_page: R) -> (r: Option<(Vec<u8>, u64)>)
        requires
            forall|p: u64| call_requires(read_page, (p,)),
        ensures
            match r {
                Some(copy) => address & !0xfffu64 != 0 && call_ensures(read_page, (address & !0xfffu64,), copy),
                None => address & !0xfffu64 == 0,
            },
    {
        let page_address = PhysicalAddress::from_pa(address).align_down_to_base_page();
        if page_address.as_u64() == 0 {
            return None;
        }
        Some(read_page(page_address.as_u64()))
    }

    /// A hook that shows a copy of the page of `address` in its place: the
    /// copy comes from `copy_page` with `read_page`, and `to_physical` gives
    /// the physical address of a virtual one.
    pub fn hook_page<R: Fn(u64) -> (Vec<u8>, u64), T: Fn(u64) -> u64>(address: u64, read_page: R, to_physical: T) -> (r: Option<Self>)
        requires
            forall|p: u64| call_requires(read_page, (p,)),
            forall|v: u64| call_requires(to_physical, (v,)),
        ensures
            match r {
                Some(h) => {
                    &&& address & !0xfffu64 != 0
                    &&& call_ensures(read_page, (address & !0xfffu64,), (h.page, h.page_va))
                    &&& h.original_va == address
                    &&& call_ensures(to_physical, (address,), h.original_pa@)
                    &&& call_ensures(to_physical, (h.page_va,), h.page_pa@)
                    &&& h.hook_va == h.page_va
                    &&& call_ensures(to_physical, (h.hook_va,), h.hook_pa@)
                    &&& h.hook_type is Page
                },
                None => address & !0xfffu64 == 0,
            },
    {
        let original_pa = PhysicalAddress::from_pa(to_physical(address));
        let (page, page_va) = match Self::copy_page(address, read_page) {
            Some(copy) => copy,
            None => return None,
        };
        let page_pa = PhysicalAddress::from_pa(to_physical(page_va));
        let hook_va = page_va;
        let hook_pa = PhysicalAddress::from_pa(to_physical(hook_va));
        Some(Hook {
            original_va: address,
            original_pa,
            page_va,
            page_pa,
            hook_va,
            hook_pa,
            page,
            hook_type: HookType::Page,
        })
    }

    /// A hook of the function at `function_ptr` that sends it to
    /// `handler`: the function's page is copied with `read_page`, the
    /// inline hook is placed on the copy, at the function's offset into the
    /// page, with the copy's bytes from there (up to
    /// `2 * JMP_SHELLCODE_LEN`, and no further than the copy goes), and
    /// its trampoline comes from `allocate`. `to_physical` gives the physical
    /// address of a virtual one. The trampoline's code comes with the hook.
    /// None for the page at 0, a copy placed so high that the function's
    /// offset overflows, or an inline hook that could not be made.
    pub fn hook_function_ptr<R: Fn(u64) -> (Vec<u8>, u64), T: Fn(u64) -> u64, A: Fn(usize) -> Option<u64>>(
        function_ptr: u64,
        handler: u64,
        read_page: R,
        to_physical: T,
        allocate: A,
    ) -> (r: Option<(Self, Vec<u8>)>)
        requires
            forall|p: u64| call_requires(read_page, (p,)),
            forall|v: u64| call_requires(to_physical, (v,)),
            forall|n: usize| call_requires(allocate, (n,)),
        ensures
            match r {
                Some((h, code)) => {
                    &&& function_ptr & !0xfffu64 != 0
                    &&& call_ensures(read_page, (function_ptr & !0xfffu64,), (h.page, h.page_va))
                    &&& h.original_va == function_ptr
                    &&& call_ensures(to_physical, (function_ptr,), h.original_pa@)
                    &&& call_ensures(to_physical, (h.page_va,), h.page_pa@)
                    &&& h.hook_va == h.page_va + (function_ptr & 0xfffu64)
                    &&& call_ensures(to_physical, (h.hook_va,), h.hook_pa@)
                    &&& match h.hook_type {
                        HookType::Function { inline_hook } => {
                            &&& inline_hook.address_spec() == h.hook_va
                            &&& inline_hook.handler_spec() == handler
                            &&& !inline_hook.enabled_spec()
                            &&& trampoline_outcome(
                                allocate,
                                function_ptr,
                                function_bytes(h.page@, function_ptr & 0xfffu64),
                                Ok((inline_hook.trampoline_spec(), code@)),
                            )
                        },
                        HookType::Page => false,
                    }
                },
                None => hook_function_ptr_fails(function_ptr, read_page, allocate),
            },
    {
        let original_pa = PhysicalAddress::from_pa(to_physical(function_ptr));
        let (page, page_va) = match Self::copy_page(function_ptr, read_page) {
            Some(copy) => copy,
            None => return None,
        };
        let page_pa = PhysicalAddress::from_pa(to_physical(page_va));
        let offset = base_page_offset(function_ptr);
        if page_va > u64::MAX - offset {
            assert(call_ensures(read_page, (function_ptr & !0xfffu64,), (page, page_va)));
            return None;
        }
        let hook_va = Self::address_in_page(page_va, function_ptr);
        let hook_pa = PhysicalAddress::from_pa(to_physical(hook_va));
        assert(function_ptr & 0xfffu64 <= 0xfff) by (bit_vector);
        let bytes = first_bytes(&page, offset);
        let (inline_hook, code) = match InlineHook::new(function_ptr, hook_va, handler, &bytes, allocate) {
            Some(made) => made,
            None => {
                assert(call_ensures(read_page, (function_ptr & !0xfffu64,), (page, page_va)));
                return None;
            },
        };
        Some((
            Hook {
                original_va: function_ptr,
                original_pa,
                hook_va,
                hook_pa,
                page,
                page_va,
                page_pa,
                hook_type: HookType::Function { inline_hook },
            },
            code,
        ))
    }

    /// A hook of the exported kernel function `name`, found by `lookup`
    /// from the name's nul-terminated UTF-16 form (0 when there is no such
    /// function), made as `hook_function_ptr` makes it. None for a name with
    /// a nul inside, a function that is not found, or when
    /// `hook_function_ptr` gives none.
    pub fn hook_function<
        L: Fn(&Vec<u16>) -> u64,
        R: Fn(u64) -> (Vec<u8>, u64),
        T: Fn(u64) -> u64,
        A: Fn(usize) -> Option<u64>,
    >(name: &str, handler: u64, lookup: L, read_page: R, translate: T, allocate: A) -> (r: Option<(Self, Vec<u8>)>)
        requires
            forall|w: &Vec<u16>| call_requires(lookup, (w,)),
            forall|p: u64| call_requires(read_page, (p,)),
            forall|v: u64| call_requires(translate, (v,)),
            forall|n: usize| call_requires(allocate, (n,)),
        ensures
            has_interior_nul(name@) ==> r is None,
            match r {
                Some((h, code)) => exists|w: &Vec<u16>|
                    #[trigger] call_ensures(lookup, (w,), h.original_va) && w@ == wide_name(name@)
                        && h.original_va != 0,
                None => has_interior_nul(name@) || exists|w: &Vec<u16>, a: u64|
                    #[trigger] call_ensures(lookup, (w,), a) && w@ == wide_name(name@) && (a == 0
                        || hook_function_ptr_fails(a, read_page, allocate)),
            },
    {
        let wide = match wide_c_string(name) {
            Some(wide) => wide,
            None => return None,
        };
        let address = lookup(&wide);
        assert(call_ensures(lookup, (&wide,), address));
        if address == 0 {
            return None;
        }
        let r = Self::hook_function_ptr(address, handler, read_page, translate, allocate);
        assert(call_ensures(lookup, (&wide,), address));
        r
    }
}

/// When `hook_function_ptr` gives no hook: for the page at 0, or when the
/// copy `read_page` made lies so high that the function's offset
/// overflows, or when the inline hook on the copy cannot be made.
pub open spec fn hook_function_ptr_fails<R: Fn(u64) -> (Vec<u8>, u64), A: Fn(usize) -> Option<u64>>(
    function_ptr: u64,
    read_page: R,
    allocate: A,
) -> bool {
    ||| function_ptr & !0xfffu64 == 0
    ||| exists|copy: (Vec<u8>, u64)|
        #[trigger] call_ensures(read_page, (function_ptr & !0xfffu64,), copy) && (copy.1 > u64::MAX - (
        function_ptr & 0xfffu64) || exists|e: InlineHookError|
            #[trigger] trampoline_outcome(
            allocate,
            function_ptr,
            function_bytes(copy.0@, function_ptr & 0xfffu64),
            Err::<(u64, Seq<u8>), InlineHookError>(e),
        ))
}

/// The bytes of the copied page from `offset` on: `2 * JMP_SHELLCODE_LEN`
/// of them, or as many as the page still has.
pub open spec fn function_bytes(page: Seq<u8>, offset: u64) -> Seq<u8> {
    let end = if offset + 2 * JMP_SHELLCODE_LEN <= page.len() {
        offset + 2 * JMP_SHELLCODE_LEN
    } else {
        page.len() as int
    };
    if offset <= page.len() {
        page.subrange(offset as int, end)
    } else {
        Seq::empty()
    }
}

fn first_bytes(page: &Vec<u8>, offset: u64) -> (r: Vec<u8>)
    requires
        offset <= 0xfff,
    ensures
        r@ == function_bytes(page@, offset),
{
    let mut bytes: Vec<u8> = Vec::new();
    let start = offset as usize;
    if start > page.len() {
        return bytes;
    }
    let end = if page.len() - start >= 2 * JMP_SHELLCODE_LEN {
        start + 2 * JMP_SHELLCODE_LEN
    } else {
        page.len()
    };
    let mut i = start;
    while i < end
        invariant
            start <= i <= end <= page@.len(),
            start == offset,
            bytes@ == page@.subrange(start as int, i as int),
        decreases end - i,
    {
        bytes.push(page[i]);
        i = i + 1;
    }
    bytes
}

/// Tries to find the first hook whose original page is the 4 KiB page of
/// the faulting physical address.
pub fn find_hook(hooks: &Vec<Hook>, faulting_pa: u64) -> (r: Option<&Hook>)
    ensures
        found(hooks@, on_page(faulting_pa), r),
{
    let aligned = PhysicalAddress::from_pa(faulting_pa).align_down_to_base_page();
    let mut i: usize = 0;
    while i < hooks.len()
        invariant
            i <= hooks@.len(),
            aligned@ == faulting_pa & !0xfffu64,
            forall|j: int| 0 <= j < i ==> !(on_page(faulting_pa))(#[trigger] hooks@[j]),
        decreases hooks@.len() - i,
    {
        let hook_pa = hooks[i].original_pa.align_down_to_base_page();
        if hook_pa.as_u64() == aligned.as_u64() {
            assert(first_match(hooks@, on_page(faulting_pa), i as int));
            return Some(&hooks[i]);
        }
        i = i + 1;
    }
    None
}

/// Tries to find the first hook of the specified virtual address.
pub fn find_hook_by_address(hooks: &Vec<Hook>, address: u64) -> (r: Option<&Hook>)
    ensures
        found(hooks@, at_address(address), r),
{
    let mut i: usize = 0;
    while i < hooks.len()
        invariant
            i <= hooks@.len(),
            forall|j: int| 0 <= j < i ==> !(at_address(address))(#[trigger] hooks@[j]),
        decreases hooks@.len() - i,
    {
        if hooks[i].original_va == address {
            assert(first_match(hooks@, at_address(address), i as int));
            return Some(&hooks[i]);
        }
        i = i + 1;
    }
    None
}

} // verus!
