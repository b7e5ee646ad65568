//! The presentable-surface resource state machine: the in-flight
//! submission and presentation queues, the scratch-buffer pool, and the
//! swapchain lifecycle.
//!
//! GPU objects are carried as opaque `u64` handles; the functions here make
//! every scheduling and reclamation decision, and return action records
//! naming the handles the caller must create or destroy through the
//! graphics API. Both in-flight queues are collected strictly oldest-first:
//! an incomplete entry blocks every later one, so scratch buffers return to
//! the pool in submission order.

use vstd::prelude::*;

verus! {

/// One in-flight submission: its synchronization primitives, command
/// buffer, and the scratch buffers it borrowed from the pool.
#[derive(Clone, Debug)]
pub struct VulkanSubmission {
    pub release_fence: u64,
    pub acquire_semaphore: u64,
    pub release_semaphore: u64,
    pub owns_release_semaphore: bool,
    pub command_buffer: u64,
    pub fill_buffers: Vec<u64>,
}

/// Mathematical value of a submission.
pub ghost struct SubmissionS {
    pub release_fence: u64,
    pub acquire_semaphore: u64,
    pub release_semaphore: u64,
    pub owns_release_semaphore: bool,
    pub command_buffer: u64,
    pub fill_buffers: Seq<u64>,
}

impl View for VulkanSubmission {
    type V = SubmissionS;

    open spec fn view(&self) -> SubmissionS {
        SubmissionS {
            release_fence: self.release_fence,
            acquire_semaphore: self.acquire_semaphore,
            release_semaphore: self.release_semaphore,
            owns_release_semaphore: self.owns_release_semaphore,
            command_buffer: self.command_buffer,
            fill_buffers: self.fill_buffers@,
        }
    }
}

/// One in-flight presentation: the release semaphore whose ownership it
/// took over from its submission, and its completion fence.
#[derive(Clone, Copy, Debug, PartialEq, Eq, Structural, Hash)]
pub struct VulkanPresentation {
    pub release_fence: u64,
    pub release_semaphore: u64,
}

/// A swapchain with its per-image handles and extent.
#[derive(Clone, Debug)]
pub struct VulkanSwapchain {
    pub swapchain: u64,
    pub images: Vec<u64>,
    pub image_views: Vec<u64>,
    pub width: u32,
    pub height: u32,
}

/// Mathematical value of a swapchain.
pub ghost struct SwapchainS {
    pub swapchain: u64,
    pub images: Seq<u64>,
    pub image_views: Seq<u64>,
    pub width: u32,
    pub height: u32,
}

impl View for VulkanSwapchain {
    type V = SwapchainS;

    open spec fn view(&self) -> SwapchainS {
        SwapchainS {
            swapchain: self.swapchain,
            images: self.images@,
            image_views: self.image_views@,
            width: self.width,
            height: self.height,
        }
    }
}

/// The resource state of one presentable surface.
pub struct VulkanSurface {
    pub submissions: Vec<VulkanSubmission>,
    pub presents: Vec<VulkanPresentation>,
    pub swapchain: Option<VulkanSwapchain>,
    pub suboptimal: bool,
    pub fill_buffers: Vec<u64>,
}

/// The sequence of submission values of a queue.
pub open spec fn subs_view(v: Seq<VulkanSubmission>) -> Seq<SubmissionS> {
    v.map_values(|s: VulkanSubmission| s@)
}

/// How many leading queue entries are collected: all of them when forced,
/// otherwise the longest prefix whose fences have signaled.
pub open spec fn gc_prefix(done: Seq<bool>, force: bool) -> int
    decreases done.len(),
{
    if done.len() == 0 {
        0
    } else if force || done[0] {
        1 + gc_prefix(done.drop_first(), force)
    } else {
        0
    }
}

/// A forced collection takes the whole queue.
pub proof fn lemma_gc_prefix_force(done: Seq<bool>)
    ensures
        gc_prefix(done, true) == done.len(),
    decreases done.len(),
{
    if done.len() > 0 {
        lemma_gc_prefix_force(done.drop_first());
    }
}

/// The collected prefix never exceeds the queue.
pub proof fn lemma_gc_prefix_le(done: Seq<bool>, force: bool)
    ensures
        0 <= gc_prefix(done, force) <= done.len(),
    decreases done.len(),
{
    if done.len() > 0 {
        lemma_gc_prefix_le(done.drop_first(), force);
    }
}

/// The scratch buffers of the first `k` submissions, in queue order.
pub open spec fn buffers_of(s: Seq<SubmissionS>, k: int) -> Seq<u64>
    decreases k,
{
    if k <= 0 {
        Seq::empty()
    } else {
        buffers_of(s, k - 1) + s[k - 1].fill_buffers
    }
}

/// The command buffers of the first `k` submissions.
pub open spec fn cbufs_of(s: Seq<SubmissionS>, k: int) -> Seq<u64>
    decreases k,
{
    if k <= 0 {
        Seq::empty()
    } else {
        cbufs_of(s, k - 1).push(s[k - 1].command_buffer)
    }
}

/// The semaphores destroyed when the first `k` submissions are collected:
/// each acquire semaphore, and each release semaphore still owned by its
/// submission.
pub open spec fn sub_sems_of(s: Seq<SubmissionS>, k: int) -> Seq<u64>
    decreases k,
{
    if k <= 0 {
        Seq::empty()
    } else {
        let rest = sub_sems_of(s, k - 1).push(s[k - 1].acquire_semaphore);
        if s[k - 1].owns_release_semaphore {
            rest.push(s[k - 1].release_semaphore)
        } else {
            rest
        }
    }
}

/// The fences destroyed when the first `k` submissions are collected.
pub open spec fn sub_fences_of(s: Seq<SubmissionS>, k: int) -> Seq<u64>
    decreases k,
{
    if k <= 0 {
        Seq::empty()
    } else {
        sub_fences_of(s, k - 1).push(s[k - 1].release_fence)
    }
}

/// The semaphores destroyed when the first `k` presentations are
/// collected.
pub open spec fn pres_sems_of(p: Seq<VulkanPresentation>, k: int) -> Seq<u64>
    decreases k,
{
    if k <= 0 {
        Seq::empty()
    } else {
        pres_sems_of(p, k - 1).push(p[k - 1].release_semaphore)
    }
}

/// The fences destroyed when the first `k` presentations are collected.
pub open spec fn pres_fences_of(p: Seq<VulkanPresentation>, k: int) -> Seq<u64>
    decreases k,
{
    if k <= 0 {
        Seq::empty()
    } else {
        pres_fences_of(p, k - 1).push(p[k - 1].release_fence)
    }
}

/// Mapping to values commutes with dropping a prefix.
proof fn lemma_subs_view_skip(v: Seq<VulkanSubmission>, k: int)
    requires
        0 <= k <= v.len(),
    ensures
        subs_view(v.skip(k)) =~= subs_view(v).skip(k),
{
    assert forall|i: int| 0 <= i < v.skip(k).len() implies #[trigger] subs_view(v.skip(k))[i]
        == subs_view(v).skip(k)[i] by {
        assert(v.skip(k)[i] == v[k + i]);
    }
}

/// The handles a garbage collection pass tells the caller to release.
pub struct GcActions {
    pub free_command_buffers: Vec<u64>,
    pub destroy_semaphores: Vec<u64>,
    pub destroy_fences: Vec<u64>,
}

impl VulkanSurface {
    /// A fresh surface: empty queues, no swapchain, an empty pool.
    pub fn new() -> (r: VulkanSurface)
        ensures
            r.submissions@.len() == 0,
            r.presents@.len() == 0,
            r.swapchain is None,
            !r.suboptimal,
            r.fill_buffers@.len() == 0,
    {
        VulkanSurface {
            submissions: Vec::new(),
            presents: Vec::new(),
            swapchain: None,
            suboptimal: false,
            fill_buffers: Vec::new(),
        }
    }

    /// Collects completed in-flight work, oldest first, stopping at the
    /// first entry whose fence has not signaled; a forced collection drains
    /// both queues regardless. `sub_done` and `pres_done` give each
    /// entry's fence status as the caller polled it. Every scratch buffer
    /// of a collected submission returns to the pool exactly once, in
    /// order; the returned actions name the handles to destroy.
    pub fn gc(&mut self, force: bool, sub_done: &Vec<bool>, pres_done: &Vec<bool>) -> (r: GcActions)
        requires
            sub_done@.len() == old(self).submissions@.len(),
            pres_done@.len() == old(self).presents@.len(),
        ensures
            ({
                let k1 = gc_prefix(sub_done@, force);
                let k2 = gc_prefix(pres_done@, force);
                let oldsubs = subs_view(old(self).submissions@);
                &&& subs_view(final(self).submissions@) == subs_view(old(self).submissions@).skip(
                    k1,
                )
                &&& final(self).presents@ == old(self).presents@.skip(k2)
                &&& final(self).fill_buffers@ == old(self).fill_buffers@ + buffers_of(oldsubs, k1)
                &&& final(self).swapchain == old(self).swapchain
                &&& final(self).suboptimal == old(self).suboptimal
                &&& r.free_command_buffers@ == cbufs_of(oldsubs, k1)
                &&& r.destroy_semaphores@ == sub_sems_of(oldsubs, k1) + pres_sems_of(
                    old(self).presents@,
                    k2,
                )
                &&& r.destroy_fences@ == sub_fences_of(oldsubs, k1) + pres_fences_of(
                    old(self).presents@,
                    k2,
                )
            }),
            force ==> final(self).submissions@.len() == 0 && final(self).presents@.len() == 0,
    {
        proof {
            lemma_gc_prefix_le(sub_done@, force);
            lemma_gc_prefix_le(pres_done@, force);
            if force {
                lemma_gc_prefix_force(sub_done@);
                lemma_gc_prefix_force(pres_done@);
            }
        }
        let ghost oldsubs = subs_view(self.submissions@);
        let ghost oldpres = self.presents@;
        let ghost oldpool = self.fill_buffers@;
        let k1: usize = gc_prefix_exec(sub_done, force);
        let k2: usize = gc_prefix_exec(pres_done, force);
        let mut free_command_buffers: Vec<u64> = Vec::new();
        let mut destroy_semaphores: Vec<u64> = Vec::new();
        let mut destroy_fences: Vec<u64> = Vec::new();
        let mut i: usize = 0;
        while i < k1
            invariant
                0 <= i <= k1,
                k1 <= oldsubs.len(),
                subs_view(self.submissions@) == oldsubs.skip(i as int),
                self.presents@ == oldpres,
                self.fill_buffers@ == oldpool + buffers_of(oldsubs, i as int),
                self.swapchain == old(self).swapchain,
                self.suboptimal == old(self).suboptimal,
                free_command_buffers@ == cbufs_of(oldsubs, i as int),
                destroy_semaphores@ == sub_sems_of(oldsubs, i as int),
                destroy_fences@ == sub_fences_of(oldsubs, i as int),
            decreases k1 - i,
        {
            let ghost prevec = self.submissions@;
            proof {
                assert(subs_view(prevec).len() == prevec.len());
                assert(prevec.len() > 0);
            }
            let mut first: VulkanSubmission = self.submissions.remove(0);
            proof {
                assert(subs_view(prevec)[0] == prevec[0]@);
                assert(first@ == oldsubs.skip(i as int)[0]);
                assert(first@ == oldsubs[i as int]);
                assert(self.submissions@ =~= prevec.skip(1));
                lemma_subs_view_skip(prevec, 1);
                assert(subs_view(self.submissions@) =~= subs_view(prevec).skip(1));
                assert(subs_view(self.submissions@) =~= oldsubs.skip(i as int).skip(1));
                assert(oldsubs.skip(i as int).skip(1) =~= oldsubs.skip(i as int + 1));
            }
            free_command_buffers.push(first.command_buffer);
            destroy_semaphores.push(first.acquire_semaphore);
            if first.owns_release_semaphore {
                destroy_semaphores.push(first.release_semaphore);
            }
            destroy_fences.push(first.release_fence);
            let ghost poolpre = self.fill_buffers@;
            let mut j: usize = 0;
            let nbuf: usize = first.fill_buffers.len();
            while j < nbuf
                invariant
                    0 <= j <= nbuf,
                    nbuf == first.fill_buffers@.len(),
                    self.fill_buffers@ == poolpre + first.fill_buffers@.take(j as int),
                    subs_view(self.submissions@) == oldsubs.skip(i as int + 1),
                    self.presents@ == oldpres,
                    self.swapchain == old(self).swapchain,
                    self.suboptimal == old(self).suboptimal,
                decreases nbuf - j,
            {
                let b: u64 = first.fill_buffers[j];
                self.fill_buffers.push(b);
                proof {
                    assert(self.fill_buffers@ =~= poolpre + first.fill_buffers@.take(
                        j as int + 1,
                    ));
                }
                j = j + 1;
            }
            proof {
                assert(first.fill_buffers@.take(nbuf as int) =~= first.fill_buffers@);
                assert(self.fill_buffers@ =~= oldpool + buffers_of(oldsubs, i as int + 1));
            }
            i = i + 1;
        }
        let mut p: usize = 0;
        while p < k2
            invariant
                0 <= p <= k2,
                k2 <= oldpres.len(),
                subs_view(self.submissions@) == oldsubs.skip(k1 as int),
                self.presents@ == oldpres.skip(p as int),
                self.fill_buffers@ == oldpool + buffers_of(oldsubs, k1 as int),
                self.swapchain == old(self).swapchain,
                self.suboptimal == old(self).suboptimal,
                free_command_buffers@ == cbufs_of(oldsubs, k1 as int),
                destroy_semaphores@ == sub_sems_of(oldsubs, k1 as int) + pres_sems_of(
                    oldpres,
                    p as int,
                ),
                destroy_fences@ == sub_fences_of(oldsubs, k1 as int) + pres_fences_of(
                    oldpres,
                    p as int,
                ),
            decreases k2 - p,
        {
            let first: VulkanPresentation = self.presents.remove(0);
            proof {
                assert(oldpres[p as int] == first);
                assert(self.presents@ =~= oldpres.skip(p as int + 1));
            }
            destroy_semaphores.push(first.release_semaphore);
            destroy_fences.push(first.release_fence);
            proof {
                assert(destroy_semaphores@ =~= sub_sems_of(oldsubs, k1 as int) + pres_sems_of(
                    oldpres,
                    p as int + 1,
                ));
                assert(destroy_fences@ =~= sub_fences_of(oldsubs, k1 as int) + pres_fences_of(
                    oldpres,
                    p as int + 1,
                ));
            }
            p = p + 1;
        }
        GcActions { free_command_buffers, destroy_semaphores, destroy_fences }
    }

    /// Pops a recycled scratch buffer from the pool, newest first; `None`
    /// when the caller must allocate a fresh one.
    pub fn take_fill_buffer(&mut self) -> (r: Option<u64>)
        ensures
            old(self).fill_buffers@.len() == 0 ==> r is None && final(self).fill_buffers@ == old(
                self,
            ).fill_buffers@,
            old(self).fill_buffers@.len() > 0 ==> (r matches Some(b) && b == old(
                self,
            ).fill_buffers@.last() && final(self).fill_buffers@ == old(
                self,
            ).fill_buffers@.drop_last()),
            final(self).submissions@ == old(self).submissions@,
            final(self).presents@ == old(self).presents@,
            final(self).swapchain == old(self).swapchain,
            final(self).suboptimal == old(self).suboptimal,
    {
        self.fill_buffers.pop()
    }

    /// Enqueues a freshly submitted frame; the submission still owns its
    /// release semaphore until the matching presentation takes it over.
    pub fn push_submission(&mut self, s: VulkanSubmission) -> (r: ())
        requires
            s.owns_release_semaphore,
        ensures
            final(self).submissions@ == old(self).submissions@.push(s),
            final(self).presents@ == old(self).presents@,
            final(self).fill_buffers@ == old(self).fill_buffers@,
            final(self).swapchain == old(self).swapchain,
            final(self).suboptimal == old(self).suboptimal,
    {
        self.submissions.push(s);
    }

    /// Records a successful presentation of the newest submission:
    /// ownership of the release semaphore passes from the submission to the
    /// presentation entry, which also carries the present-completion fence.
    pub fn complete_present(&mut self, present_fence: u64) -> (r: ())
        requires
            old(self).submissions@.len() > 0,
        ensures
            ({
                let n = old(self).submissions@.len();
                let last = old(self).submissions@[n - 1]@;
                &&& final(self).submissions@.len() == n
                &&& forall|i: int|
                    0 <= i < n - 1 ==> final(self).submissions@[i] == old(self).submissions@[i]
                &&& final(self).submissions@[n - 1]@ == (SubmissionS {
                    owns_release_semaphore: false,
                    ..last
                })
                &&& final(self).presents@ == old(self).presents@.push(
                    VulkanPresentation {
                        release_fence: present_fence,
                        release_semaphore: last.release_semaphore,
                    },
                )
                &&& final(self).fill_buffers@ == old(self).fill_buffers@
                &&& final(self).swapchain == old(self).swapchain
                &&& final(self).suboptimal == old(self).suboptimal
            }),
    {
        let n: usize = self.submissions.len();
        let mut last: VulkanSubmission = self.submissions.remove(n - 1);
        let sem: u64 = last.release_semaphore;
        last.owns_release_semaphore = false;
        self.submissions.push(last);
        self.presents.push(VulkanPresentation { release_fence: present_fence, release_semaphore: sem });
        proof {
            assert(self.submissions@ =~= old(self).submissions@.update(
                n - 1,
                self.submissions@[n as int - 1],
            ));
        }
    }

    /// Notes the suboptimal flag reported by an acquire or present: once
    /// the platform reports the swapchain suboptimal, it stays marked stale
    /// until recreated.
    pub fn note_suboptimal(&mut self, suboptimal: bool) -> (r: ())
        ensures
            final(self).suboptimal == (old(self).suboptimal || suboptimal),
            final(self).submissions@ == old(self).submissions@,
            final(self).presents@ == old(self).presents@,
            final(self).fill_buffers@ == old(self).fill_buffers@,
            final(self).swapchain == old(self).swapchain,
    {
        if suboptimal {
            self.suboptimal = true;
        }
    }

    /// Whether the swapchain must be recreated for the requested extent:
    /// there is none, the platform reported it suboptimal, or its extent
    /// differs.
    pub open spec fn needs_recreate(self, width: u32, height: u32) -> bool {
        match self.swapchain {
            Option::None => true,
            Option::Some(sc) => self.suboptimal || sc.width != width || sc.height != height,
        }
    }

    /// Decides whether the swapchain must be recreated for the requested
    /// extent. On recreation the old swapchain is handed back for the
    /// caller to chain from and destroy, and the device must be idled
    /// first exactly when an old swapchain existed.
    pub fn ensure_swapchain(&mut self, width: u32, height: u32) -> (r: Option<
        (bool, Option<VulkanSwapchain>),
    >)
        ensures
            !old(self).needs_recreate(width, height) ==> r is None && *final(self) == *old(self),
            old(self).needs_recreate(width, height) ==> (r matches Some(t) && t.0 == (old(
                self,
            ).swapchain is Some) && t.1 == old(self).swapchain && final(self).swapchain is None
                && final(self).submissions@ == old(self).submissions@ && final(self).presents@
                == old(self).presents@ && final(self).fill_buffers@ == old(self).fill_buffers@
                && final(self).suboptimal == old(self).suboptimal),
    {
        let mut recreate: bool = false;
        if self.swapchain.is_none() {
            recreate = true;
        }
        if !recreate && self.suboptimal {
            recreate = true;
        }
        if !recreate {
            if let Some(sc) = &self.swapchain {
                if sc.width != width || sc.height != height {
                    recreate = true;
                }
            }
        }
        if recreate {
            let old_sc: Option<VulkanSwapchain> = self.swapchain.take();
            let wait_idle: bool = old_sc.is_some();
            Some((wait_idle, old_sc))
        } else {
            None
        }
    }

    /// Installs a newly created swapchain and clears the stale mark.
    pub fn install_swapchain(&mut self, sc: VulkanSwapchain) -> (r: ())
        ensures
            final(self).swapchain matches Some(s) && s@ == sc@,
            !final(self).suboptimal,
            final(self).submissions@ == old(self).submissions@,
            final(self).presents@ == old(self).presents@,
            final(self).fill_buffers@ == old(self).fill_buffers@,
    {
        self.swapchain = Some(sc);
        self.suboptimal = false;
    }

    /// Hands out the swapchain and the pooled buffers for teardown: the
    /// caller destroys the views, the swapchain and every buffer, after a
    /// forced collection of both queues.
    pub fn drain_for_teardown(&mut self) -> (r: (Option<VulkanSwapchain>, Vec<u64>))
        ensures
            r.0 == old(self).swapchain,
            r.1@ == old(self).fill_buffers@,
            final(self).swapchain is None,
            final(self).fill_buffers@.len() == 0,
            final(self).submissions@ == old(self).submissions@,
            final(self).presents@ == old(self).presents@,
    {
        let sc: Option<VulkanSwapchain> = self.swapchain.take();
        let mut bufs: Vec<u64> = Vec::new();
        core::mem::swap(&mut bufs, &mut self.fill_buffers);
        (sc, bufs)
    }
}

fn gc_prefix_exec(done: &Vec<bool>, force: bool) -> (r: usize)
    ensures
        r as int == gc_prefix(done@, force),
        r <= done@.len(),
{
    proof {
        lemma_gc_prefix_le(done@, force);
    }
    if force {
        proof {
            lemma_gc_prefix_force(done@);
        }
        return done.len();
    }
    proof {
        assert(done@.skip(0) =~= done@);
    }
    let mut i: usize = 0;
    while i < done.len()
        invariant
            0 <= i <= done@.len(),
            !force,
            forall|j: int| 0 <= j < i ==> done@[j],
            gc_prefix(done@, false) == i as int + gc_prefix(done@.skip(i as int), false),
        decreases done@.len() - i,
    {
        if !done[i] {
            proof {
                assert(done@.skip(i as int).len() > 0);
                assert(done@.skip(i as int)[0] == false);
                assert(gc_prefix(done@.skip(i as int), false) == 0);
            }
            return i;
        }
        proof {
            assert(done@.skip(i as int)[0]);
            assert(done@.skip(i as int).drop_first() =~= done@.skip(i as int + 1));
        }
        i = i + 1;
    }
    proof {
        assert(done@.skip(i as int).len() == 0);
    }
    i
}

} // verus!
