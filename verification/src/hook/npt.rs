//! Hooks through nested page tables.
use vstd::prelude::*;

use crate::hook::{
    at_address, copy_page, find_hook as find_first_hook_on_page,
    find_hook_by_address as find_first_hook_at, found, on_page, original_page, Hook,
};
use crate::nt::addresses::PhysicalAddress;
use crate::svm::nested_page_table::{
    all_blocks_covered, covered, lemma_access_entry, lemma_identity_base_covered,
    lemma_identity_large_covered, lemma_index_bounds, lemma_permission_changed_covered,
    lemma_same_page_indices, lemma_table_entries, pd_slot, resolve_view,
    permission_changed_view, pt_key, pt_value, split_range_ok, view_wf, NestedPageTable, NptView,
    TableAddresses,
};
use crate::svm::paging::{
    entry_address, entry_address_ok, entry_fetch_disabled, entry_large, entry_present,
    pdpt_index_spec, pml4_index_spec, AccessType,
};

verus! {

/// The contents after `change_page_permission(g, h, access)` for each pair
/// `(g, h)` in order.
pub open spec fn permissions_applied(v: NptView, pairs: Seq<(u64, u64)>, access: AccessType) -> NptView
    decreases pairs.len(),
{
    if pairs.len() == 0 {
        v
    } else {
        permission_changed_view(
            permissions_applied(v, pairs.drop_last(), access),
            pairs.last().0,
            pairs.last().1,
            access,
        )
    }
}

/// The pages the NPT with execute rights changes: each hooked page to
/// itself.
pub open spec fn rwx_pairs(hooks: Seq<Hook>) -> Seq<(u64, u64)> {
    hooks.map_values(|h: Hook| (original_page(h), original_page(h)))
}

/// The pages the NPT without execute rights changes: each hooked page to
/// its copy.
pub open spec fn rw_pairs(hooks: Seq<Hook>) -> Seq<(u64, u64)> {
    hooks.map_values(|h: Hook| (original_page(h), copy_page(h)))
}

/// The physical addresses of a hook are below 2^52.
pub open spec fn hook_addresses_ok(h: Hook) -> bool {
    h.original_pa@ < 0x10_0000_0000_0000 && h.hook_pa@ < 0x10_0000_0000_0000
}

pub proof fn lemma_page_address_ok(pa: u64)
    requires
        pa < 0x10_0000_0000_0000,
    ensures
        entry_address_ok(pa & !0xfffu64),
        pa & !0x1f_ffffu64 & 0x1f_ffffu64 == 0,
        split_range_ok(pa & !0x1f_ffffu64),
        pd_slot(pa & !0xfffu64) == pd_slot(pa & !0x1f_ffffu64),
{
    assert(pa < 0x10_0000_0000_0000 ==> {
        &&& (pa & !0xfffu64) & 0x000f_ffff_ffff_f000u64 == pa & !0xfffu64
        &&& pa & !0x1f_ffffu64 & 0x1f_ffffu64 == 0
        &&& (pa & !0x1f_ffffu64) & 0x000f_ffff_ffff_f000u64 == pa & !0x1f_ffffu64
        &&& (pa & !0x1f_ffffu64) + 0x1ff000 < 0x10_0000_0000_0000
        &&& ((pa & !0xfffu64) >> 30u64) & 0x1ffu64 == ((pa & !0x1f_ffffu64) >> 30u64) & 0x1ffu64
        &&& ((pa & !0xfffu64) >> 21u64) & 0x1ffu64 == ((pa & !0x1f_ffffu64) >> 21u64) & 0x1ffu64
    }) by (bit_vector);
}

/// Every page is covered where every block is.
pub proof fn lemma_all_blocks_covered(v: NptView, g: u64)
    requires
        view_wf(v),
        all_blocks_covered(v),
    ensures
        covered(v, g),
{
    lemma_index_bounds(g);
    if !entry_large(v.pd[pd_slot(g)]) {
        assert(entry_present(pt_value(v.pt, (pd_slot(g) * 512 + (pt_key(g) - pd_slot(g) * 512)) as u64)));
    }
}

/// Two nested page tables: in `rwx_npt` the hooked pages are read/write
/// only, and in `rw_npt` the hooked pages are mapped to their copies and
/// executable. Because of this, the hypervisor notices when the hooked page
/// has been entered or left.
pub struct DuplicateNptHook {
    pub rwx_npt: NestedPageTable,
    pub rwx_pml4: PhysicalAddress,
    pub rw_npt: NestedPageTable,
    pub rw_pml4: PhysicalAddress,
    pub hooks: Vec<Hook>,
}

impl DuplicateNptHook {
    /// Both tables are well formed and every hook can be enabled in both.
    pub open spec fn wf(&self) -> bool {
        &&& self.rwx_npt.wf()
        &&& self.rw_npt.wf()
        &&& forall|i: int| 0 <= i < self.hooks@.len() ==> hook_addresses_ok(#[trigger] self.hooks@[i])
    }

    /// Gives every hooked page read/write access in `rwx_npt`, and maps it
    /// to its copy with execute access in `rw_npt`. The inline hooks
    /// themselves are written to memory by the caller.
    fn enable_hooks(&mut self) -> (r: Option<()>)
        requires
            old(self).wf(),
            forall|i: int|
                0 <= i < old(self).hooks@.len() ==> covered(
                    old(self).rwx_npt.view(),
                    original_page(#[trigger] old(self).hooks@[i]),
                ) && covered(old(self).rw_npt.view(), original_page(old(self).hooks@[i])),
        ensures
            r == Some(()),
            final(self).wf(),
            final(self).hooks@ == old(self).hooks@,
            final(self).rwx_pml4 == old(self).rwx_pml4,
            final(self).rw_pml4 == old(self).rw_pml4,
            final(self).rwx_npt.same_layout(&old(self).rwx_npt),
            final(self).rw_npt.same_layout(&old(self).rw_npt),
            final(self).rwx_npt.view() == permissions_applied(
                old(self).rwx_npt.view(),
                rwx_pairs(old(self).hooks@),
                AccessType::ReadWrite,
            ),
            final(self).rw_npt.view() == permissions_applied(
                old(self).rw_npt.view(),
                rw_pairs(old(self).hooks@),
                AccessType::ReadWriteExecute,
            ),
    {
        let ghost rwx0 = self.rwx_npt.view();
        let ghost rw0 = self.rw_npt.view();
        let ghost hooks = self.hooks@;
        let ghost start = *self;
        let mut i: usize = 0;
        while i < self.hooks.len()
            invariant
                self.wf(),
                self.hooks@ == hooks,
                self.rwx_pml4 == start.rwx_pml4,
                self.rw_pml4 == start.rw_pml4,
                self.rwx_npt.same_layout(&start.rwx_npt),
                self.rw_npt.same_layout(&start.rw_npt),
                i <= hooks.len(),
                self.rwx_npt.view() == permissions_applied(
                    rwx0,
                    rwx_pairs(hooks).take(i as int),
                    AccessType::ReadWrite,
                ),
                self.rw_npt.view() == permissions_applied(
                    rw0,
                    rw_pairs(hooks).take(i as int),
                    AccessType::ReadWriteExecute,
                ),
                forall|j: int|
                    0 <= j < hooks.len() ==> covered(
                        self.rwx_npt.view(),
                        original_page(#[trigger] hooks[j]),
                    ) && covered(self.rw_npt.view(), original_page(hooks[j])),
            decreases hooks.len() - i,
        {
            let page = self.hooks[i].original_pa.align_down_to_base_page().as_u64();
            let hook_page = self.hooks[i].hook_pa.align_down_to_base_page().as_u64();
            proof {
                lemma_page_address_ok(hooks[i as int].original_pa@);
                lemma_page_address_ok(hooks[i as int].hook_pa@);
                self.rwx_npt.lemma_wf_view();
                self.rw_npt.lemma_wf_view();
                lemma_permission_changed_covered(self.rwx_npt.view(), page, page, AccessType::ReadWrite);
                lemma_permission_changed_covered(
                    self.rw_npt.view(),
                    page,
                    hook_page,
                    AccessType::ReadWriteExecute,
                );
            }
            self.rwx_npt.change_page_permission(page, page, AccessType::ReadWrite);
            self.rw_npt.change_page_permission(page, hook_page, AccessType::ReadWriteExecute);
            proof {
                assert(rwx_pairs(hooks).take(i + 1).drop_last() =~= rwx_pairs(hooks).take(i as int));
                assert(rw_pairs(hooks).take(i + 1).drop_last() =~= rw_pairs(hooks).take(i as int));
            }
            i = i + 1;
        }
        assert(rwx_pairs(hooks).take(i as int) =~= rwx_pairs(hooks));
        assert(rw_pairs(hooks).take(i as int) =~= rw_pairs(hooks));
        Some(())
    }

    /// Builds both tables as 4 KiB identity maps, records the physical
    /// addresses of their PML4s and enables the hooks.
    pub fn new(hooks: Vec<Hook>, rwx_addresses: TableAddresses, rw_addresses: TableAddresses) -> (r: Self)
        requires
            rwx_addresses.wf(),
            rw_addresses.wf(),
            forall|i: int| 0 <= i < hooks@.len() ==> hook_addresses_ok(#[trigger] hooks@[i]),
        ensures
            r.wf(),
            r.hooks@ == hooks@,
            r.rwx_npt.has_addresses(&rwx_addresses),
            r.rw_npt.has_addresses(&rw_addresses),
            r.rwx_pml4@ == rwx_addresses.pml4_pa,
            r.rw_pml4@ == rw_addresses.pml4_pa,
            r.rwx_npt.view() == permissions_applied(
                r.rwx_npt.identity_base_view(),
                rwx_pairs(hooks@),
                AccessType::ReadWrite,
            ),
            r.rw_npt.view() == permissions_applied(
                r.rw_npt.identity_base_view(),
                rw_pairs(hooks@),
                AccessType::ReadWriteExecute,
            ),
    {
        let rwx_npt = NestedPageTable::identity_4kb(rwx_addresses);
        let rwx_pml4 = PhysicalAddress::from_pa(rwx_npt.pml4_pa);
        let rw_npt = NestedPageTable::identity_4kb(rw_addresses);
        let rw_pml4 = PhysicalAddress::from_pa(rw_npt.pml4_pa);
        let mut hooked_npt = DuplicateNptHook { rwx_npt, rwx_pml4, rw_npt, rw_pml4, hooks };
        proof {
            lemma_identity_base_covered(&hooked_npt.rwx_npt);
            lemma_identity_base_covered(&hooked_npt.rw_npt);
        }
        hooked_npt.enable_hooks();
        hooked_npt
    }

    /// Tries to find a hook for the specified faulting physical address.
    ///
    /// Both pages have to be 4 KiB pages, because the comparison is done by
    /// comparing the base page aligned physical addresses.
    pub fn find_hook(&self, faulting_pa: u64) -> (r: Option<&Hook>)
        ensures
            found(self.hooks@, on_page(faulting_pa), r),
    {
        find_first_hook_on_page(&self.hooks, faulting_pa)
    }

    /// Tries to find a hook for the specified hook virtual address.
    pub fn find_hook_by_address(&self, address: u64) -> (r: Option<&Hook>)
        ensures
            found(self.hooks@, at_address(address), r),
    {
        find_first_hook_at(&self.hooks, address)
    }
}

/// The contents after `RetAddrHook::enable` handled the hook of the
/// physical address `pa`: its 2 MiB block is split if it is a large page,
/// and its 4 KiB page becomes read/write only.
pub open spec fn ret_addr_step(npt: NestedPageTable, v: NptView, pa: u64) -> NptView {
    let large_base = pa & !0x1f_ffffu64;
    let base = pa & !0xfffu64;
    let v1 = if entry_large(v.pd[pd_slot(large_base)]) {
        npt.split_view(v, large_base)
    } else {
        v
    };
    permission_changed_view(v1, base, base, AccessType::ReadWrite)
}

/// The contents after `RetAddrHook::enable` handled the hooks of the
/// physical addresses `pas` in order.
pub open spec fn ret_addr_applied(npt: NestedPageTable, v: NptView, pas: Seq<u64>) -> NptView
    decreases pas.len(),
{
    if pas.len() == 0 {
        v
    } else {
        ret_addr_step(npt, ret_addr_applied(npt, v, pas.drop_last()), pas.last())
    }
}

/// The original physical addresses of the hooks.
pub open spec fn original_pas(hooks: Seq<Hook>) -> Seq<u64> {
    hooks.map_values(|h: Hook| h.original_pa@)
}

/// The contents after `change_page_permission(p, p, ReadWrite)` for each
/// page `p` of the physical addresses `pas`.
pub open spec fn pages_hidden(v: NptView, pas: Seq<u64>) -> NptView
    decreases pas.len(),
{
    if pas.len() == 0 {
        v
    } else {
        let p = pas.last() & !0xfffu64;
        permission_changed_view(pages_hidden(v, pas.drop_last()), p, p, AccessType::ReadWrite)
    }
}

/// One nested page table with 2 MiB pages, whose hooked pages are split
/// into 4 KiB pages and made read/write only.
pub struct RetAddrHook {
    pub npt: NestedPageTable,
    pub hooks: Vec<Hook>,
}

impl RetAddrHook {
    pub open spec fn wf(&self) -> bool {
        &&& self.npt.wf()
        &&& all_blocks_covered(self.npt.view())
        &&& forall|i: int| 0 <= i < self.hooks@.len() ==> hook_addresses_ok(#[trigger] self.hooks@[i])
    }

    /// Builds the table as a 2 MiB identity map.
    pub fn new(hooks: Vec<Hook>, addresses: TableAddresses) -> (r: Self)
        requires
            addresses.wf(),
            forall|i: int| 0 <= i < hooks@.len() ==> hook_addresses_ok(#[trigger] hooks@[i]),
        ensures
            r.wf(),
            r.hooks@ == hooks@,
            r.npt.has_addresses(&addresses),
            r.npt.view() == r.npt.identity_large_view(),
    {
        let npt = NestedPageTable::identity_2mb(addresses);
        proof {
            lemma_identity_large_covered(&npt);
        }
        RetAddrHook { npt, hooks }
    }

    /// Splits the 2 MiB page of every hook into 4 KiB pages and makes the
    /// hooked page read/write only. The inline hooks themselves are written
    /// to memory by the caller.
    pub fn enable(&mut self) -> (r: Option<()>)
        requires
            old(self).wf(),
        ensures
            r == Some(()),
            final(self).wf(),
            final(self).hooks@ == old(self).hooks@,
            final(self).npt.same_layout(&old(self).npt),
            final(self).npt.view() == ret_addr_applied(
                old(self).npt,
                old(self).npt.view(),
                original_pas(old(self).hooks@),
            ),
    {
        let ghost v0 = self.npt.view();
        let ghost hooks = self.hooks@;
        let ghost start = *self;
        let mut i: usize = 0;
        while i < self.hooks.len()
            invariant
                self.wf(),
                self.hooks@ == hooks,
                self.npt.same_layout(&start.npt),
                start.npt.wf(),
                i <= hooks.len(),
                self.npt.view() == ret_addr_applied(start.npt, v0, original_pas(hooks).take(i as int)),
            decreases hooks.len() - i,
        {
            let large_page_base = self.hooks[i].original_pa.align_down_to_large_page().as_u64();
            let base_page_base = self.hooks[i].original_pa.align_down_to_base_page().as_u64();
            let ghost v = self.npt.view();
            proof {
                lemma_page_address_ok(hooks[i as int].original_pa@);
                self.npt.lemma_wf_view();
                self.npt.lemma_split_covered(v, large_page_base);
                start.npt.lemma_pages_mapped_layout(&self.npt, NptView {
                    pd: v.pd.update(pd_slot(large_page_base), crate::svm::nested_page_table::unmapped(v.pd[pd_slot(large_page_base)])),
                    ..v
                }, large_page_base, 512);
            }
            self.npt.split_2mb_to_4kb(large_page_base);
            let ghost v1 = self.npt.view();
            proof {
                self.npt.lemma_wf_view();
                lemma_all_blocks_covered(v1, base_page_base);
                lemma_permission_changed_covered(v1, base_page_base, base_page_base, AccessType::ReadWrite);
            }
            self.npt.change_page_permission(base_page_base, base_page_base, AccessType::ReadWrite);
            proof {
                assert(original_pas(hooks).take(i + 1).drop_last() =~= original_pas(hooks).take(i as int));
                assert(self.npt.view() == ret_addr_step(start.npt, v, hooks[i as int].original_pa@));
            }
            i = i + 1;
        }
        assert(original_pas(hooks).take(i as int) =~= original_pas(hooks));
        Some(())
    }

    /// Tries to find a hook for the specified faulting physical address.
    pub fn find_hook(&self, faulting_pa: u64) -> (r: Option<&Hook>)
        ensures
            found(self.hooks@, on_page(faulting_pa), r),
    {
        find_first_hook_on_page(&self.hooks, faulting_pa)
    }

    /// Tries to find a hook for the specified hook virtual address.
    pub fn find_hook_by_address(&self, address: u64) -> (r: Option<&Hook>)
        ensures
            found(self.hooks@, at_address(address), r),
    {
        find_first_hook_at(&self.hooks, address)
    }

    /// Hides all the hooks by making their pages read/write only again.
    pub fn hide_hooks(&mut self)
        requires
            old(self).wf(),
        ensures
            final(self).wf(),
            final(self).hooks@ == old(self).hooks@,
            final(self).npt.same_layout(&old(self).npt),
            final(self).npt.view() == pages_hidden(old(self).npt.view(), original_pas(old(self).hooks@)),
    {
        let ghost v0 = self.npt.view();
        let ghost hooks = self.hooks@;
        let ghost start = *self;
        let mut i: usize = 0;
        while i < self.hooks.len()
            invariant
                self.wf(),
                self.hooks@ == hooks,
                self.npt.same_layout(&start.npt),
                i <= hooks.len(),
                self.npt.view() == pages_hidden(v0, original_pas(hooks).take(i as int)),
            decreases hooks.len() - i,
        {
            let guest_pa = self.hooks[i].original_pa.align_down_to_base_page().as_u64();
            proof {
                lemma_page_address_ok(hooks[i as int].original_pa@);
                self.npt.lemma_wf_view();
                lemma_all_blocks_covered(self.npt.view(), guest_pa);
                lemma_permission_changed_covered(self.npt.view(), guest_pa, guest_pa, AccessType::ReadWrite);
            }
            self.npt.change_page_permission(guest_pa, guest_pa, AccessType::ReadWrite);
            proof {
                assert(original_pas(hooks).take(i + 1).drop_last() =~= original_pas(hooks).take(i as int));
            }
            i = i + 1;
        }
        assert(original_pas(hooks).take(i as int) =~= original_pas(hooks));
    }
}

/// Changing permissions leaves the PML4 and the PDPT alone, and a page
/// directory entry that maps no large page too.
proof fn lemma_permissions_keep_links(v: NptView, pairs: Seq<(u64, u64)>, access: AccessType, s: int)
    requires
        view_wf(v),
        0 <= s < 262144,
        !entry_large(v.pd[s]),
    ensures
        ({
            let w = permissions_applied(v, pairs, access);
            &&& view_wf(w)
            &&& w.pml4 == v.pml4
            &&& w.pdpt == v.pdpt
            &&& w.pd[s] == v.pd[s]
        }),
    decreases pairs.len(),
{
    if pairs.len() > 0 {
        lemma_permissions_keep_links(v, pairs.drop_last(), access, s);
        lemma_index_bounds(pairs.last().0);
    }
}

/// After the permission changes `pairs`, the page-table entry of `a` is
/// the one its last change `j` made: present, pointing to that change's
/// target, with instruction fetches disabled exactly for `ReadWrite`.
proof fn lemma_permissions_last_pair(v: NptView, pairs: Seq<(u64, u64)>, access: AccessType, a: u64, j: int)
    requires
        view_wf(v),
        !entry_large(v.pd[pd_slot(a)]),
        0 <= j < pairs.len(),
        pt_key(pairs[j].0) == pt_key(a),
        forall|k: int| j < k < pairs.len() ==> pt_key(#[trigger] pairs[k].0) != pt_key(a),
        entry_address_ok(pairs[j].1),
    ensures
        ({
            let e = pt_value(permissions_applied(v, pairs, access).pt, pt_key(a));
            &&& entry_present(e)
            &&& entry_address(e) == pairs[j].1
            &&& entry_fetch_disabled(e) == (access == AccessType::ReadWrite)
        }),
    decreases pairs.len(),
{
    lemma_index_bounds(a);
    let prev = permissions_applied(v, pairs.drop_last(), access);
    lemma_permissions_keep_links(v, pairs.drop_last(), access, pd_slot(a));
    if j == pairs.len() - 1 {
        lemma_same_page_indices(pairs[j].0, a);
        lemma_access_entry(pairs[j].1, pt_value(prev.pt, pt_key(a)), access);
    } else {
        assert forall|k: int| j < k < pairs.drop_last().len() implies pt_key(
            #[trigger] pairs.drop_last()[k].0,
        ) != pt_key(a) by {
            assert(pairs.drop_last()[k] == pairs[k]);
        }
        lemma_permissions_last_pair(v, pairs.drop_last(), access, a, j);
        assert(pt_key(pairs.last().0) != pt_key(a));
    }
}

/// In a table whose links to `a` are present and whose page directory
/// entry of `a` maps no large page, an address `a` of a page whose last
/// permission change is `j` resolves into the page that change pointed to,
/// with instruction fetches disabled exactly for `ReadWrite`.
pub proof fn lemma_changed_page_resolution(v: NptView, pairs: Seq<(u64, u64)>, access: AccessType, a: u64, j: int)
    requires
        view_wf(v),
        entry_present(v.pml4[pml4_index_spec(a) as int]),
        entry_present(v.pdpt[pdpt_index_spec(a) as int]),
        entry_present(v.pd[pd_slot(a)]),
        !entry_large(v.pd[pd_slot(a)]),
        0 <= j < pairs.len(),
        pt_key(pairs[j].0) == pt_key(a),
        forall|k: int| j < k < pairs.len() ==> pt_key(#[trigger] pairs[k].0) != pt_key(a),
        entry_address_ok(pairs[j].1),
    ensures
        resolve_view(permissions_applied(v, pairs, access), a) == Some(pairs[j].1 | (a & 0xfffu64)),
        entry_fetch_disabled(pt_value(permissions_applied(v, pairs, access).pt, pt_key(a))) == (access
            == AccessType::ReadWrite),
{
    lemma_index_bounds(a);
    lemma_permissions_keep_links(v, pairs, access, pd_slot(a));
    lemma_permissions_last_pair(v, pairs, access, a, j);
}

/// Below 512 GiB, two addresses share their page-table key exactly when
/// they lie in the same 4 KiB page.
proof fn lemma_low_page_key(x: u64, y: u64)
    requires
        x < 0x80_0000_0000,
        y < 0x80_0000_0000,
    ensures
        (pt_key(x) == pt_key(y)) == (x & !0xfffu64 == y & !0xfffu64),
{
    assert(x < 0x80_0000_0000 && y < 0x80_0000_0000 ==> ((((x >> 30u64) & 0x1ffu64) * 512 + ((x
        >> 21u64) & 0x1ffu64)) * 512 + ((x >> 12u64) & 0x1ffu64) == x >> 12u64 && (((y >> 30u64)
        & 0x1ffu64) * 512 + ((y >> 21u64) & 0x1ffu64)) * 512 + ((y >> 12u64) & 0x1ffu64) == y
        >> 12u64 && ((x >> 12u64 == y >> 12u64) == (x & !0xfffu64 == y & !0xfffu64))))
        by (bit_vector);
}

/// Clearing the offset bits of an address twice is clearing them once.
proof fn lemma_page_base_twice(q: u64)
    by (bit_vector)
    ensures
        (q & !0xfffu64) & !0xfffu64 == q & !0xfffu64,
{
}

/// The last hook of its page: no later hook has the same original page.
pub open spec fn last_hook_of_page(hooks: Seq<Hook>, j: int) -> bool {
    &&& 0 <= j < hooks.len()
    &&& forall|k: int| j < k < hooks.len() ==> original_page(#[trigger] hooks[k]) != original_page(hooks[j])
}

/// The duplicated tables hide a hooked page: in the table with execute
/// rights an address of the page maps to itself with instruction fetches
/// disabled, so that executing it faults; in the table without, it maps to
/// the hook's copy with fetches allowed. For pages below 512 GiB, which the
/// identity map covers, through the last hook of the page.
pub proof fn lemma_duplicate_npt_hides_hooks(h: &DuplicateNptHook, j: int, a: u64)
    requires
        h.wf(),
        h.rwx_npt.view() == permissions_applied(
            h.rwx_npt.identity_base_view(),
            rwx_pairs(h.hooks@),
            AccessType::ReadWrite,
        ),
        h.rw_npt.view() == permissions_applied(
            h.rw_npt.identity_base_view(),
            rw_pairs(h.hooks@),
            AccessType::ReadWriteExecute,
        ),
        forall|k: int| 0 <= k < h.hooks@.len() ==> original_page(#[trigger] h.hooks@[k]) < 0x80_0000_0000,
        last_hook_of_page(h.hooks@, j),
        a & !0xfffu64 == original_page(h.hooks@[j]),
    ensures
        resolve_view(h.rwx_npt.view(), a) == Some(a),
        entry_fetch_disabled(pt_value(h.rwx_npt.view().pt, pt_key(a))),
        resolve_view(h.rw_npt.view(), a) == Some(copy_page(h.hooks@[j]) | (a & 0xfffu64)),
        !entry_fetch_disabled(pt_value(h.rw_npt.view().pt, pt_key(a))),
{
    let hooks = h.hooks@;
    let p = original_page(hooks[j]);
    assert(a & !0xfffu64 == p ==> p < 0x80_0000_0000 ==> a < 0x80_0000_0000 && p | (a & 0xfffu64)
        == a) by (bit_vector);
    lemma_index_bounds(a);
    lemma_page_address_ok(hooks[j].original_pa@);
    lemma_page_address_ok(hooks[j].hook_pa@);
    assert(p & !0xfffu64 == p) by {
        assert(p == hooks[j].original_pa@ & !0xfffu64);
        lemma_page_base_twice(hooks[j].original_pa@);
    }
    lemma_low_page_key(p, a);
    assert forall|k: int| j < k < hooks.len() implies pt_key(#[trigger] original_page(hooks[k])) != pt_key(a) by {
        let q = original_page(hooks[k]);
        lemma_low_page_key(q, a);
        assert(q & !0xfffu64 == q) by {
            lemma_page_base_twice(hooks[k].original_pa@);
        }
    }
    assert forall|k: int| j < k < hooks.len() implies pt_key(#[trigger] rwx_pairs(hooks)[k].0) != pt_key(a) by {
        assert(rwx_pairs(hooks)[k].0 == original_page(hooks[k]));
    }
    assert forall|k: int| j < k < hooks.len() implies pt_key(#[trigger] rw_pairs(hooks)[k].0) != pt_key(a) by {
        assert(rw_pairs(hooks)[k].0 == original_page(hooks[k]));
    }
    assert(rwx_pairs(hooks)[j] == (p, p));
    assert(rw_pairs(hooks)[j] == (p, copy_page(hooks[j])));
    let rwx_base = h.rwx_npt.identity_base_view();
    let rw_base = h.rw_npt.identity_base_view();
    lemma_table_entries(h.rwx_npt.pdpt_pa);
    lemma_table_entries(h.rw_npt.pdpt_pa);
    lemma_table_entries(h.rwx_npt.pd_pas@[pdpt_index_spec(a) as int]);
    lemma_table_entries(h.rw_npt.pd_pas@[pdpt_index_spec(a) as int]);
    lemma_table_entries(h.rwx_npt.pt_pas@[pd_slot(a)]);
    lemma_table_entries(h.rw_npt.pt_pas@[pd_slot(a)]);
    assert(pml4_index_spec(a) == 0) by {
        assert(a < 0x80_0000_0000 ==> (a >> 39u64) & 0x1ffu64 == 0) by (bit_vector);
    }
    lemma_changed_page_resolution(rwx_base, rwx_pairs(hooks), AccessType::ReadWrite, a, j);
    lemma_changed_page_resolution(rw_base, rw_pairs(hooks), AccessType::ReadWriteExecute, a, j);
}

} // verus!
