use vstd::prelude::*;

verus! {

/// The smallest width and height the compute passes render at.
pub const MIN_RENDER_SIZE: usize = 16;

/// The width and height of a shader work group, in pixels.
pub const WORKGROUP_SIZE: usize = 16;

/// The size of the viewport texture before the first frame.
pub const INITIAL_RENDER_SIZE: usize = 256;

/// The byte length of the normals output buffer: a 256 x 256 image of
/// 4-byte colors.
pub const NORMALS_BUFFER_BYTES: u64 = (256 * 256) * 4;

/// `a / b` rounded up.
pub open spec fn ceil_div(a: int, b: int) -> int {
    (a + b - 1) / b
}

/// A length raised to at least `MIN_RENDER_SIZE`.
pub open spec fn clamp_len(len: usize) -> usize {
    if len < MIN_RENDER_SIZE {
        MIN_RENDER_SIZE
    } else {
        len
    }
}

/// A requested size with both sides raised to at least `MIN_RENDER_SIZE`.
pub open spec fn clamp_size(size: (usize, usize)) -> (usize, usize) {
    (clamp_len(size.0), clamp_len(size.1))
}

/// The number of work groups along one side: the side divided by the work
/// group size, rounded up, kept to its low 32 bits as a cast does.
pub open spec fn spec_workgroups(len: usize) -> u32 {
    ceil_div(len as int, WORKGROUP_SIZE as int) as u32
}

/// What one frame of a resizable compute pass does.
pub struct RenderPlan {
    /// The size rendered at, in pixels.
    pub size: (usize, usize),
    /// Whether the texture (and the bind group that refers to it) has to be
    /// created anew at `size` before the pass.
    pub resize: bool,
    /// The size given to the new texture; each side kept to its low 32 bits.
    pub extent: (u32, u32),
    /// The number of work groups dispatched along x and y.
    pub workgroups: (u32, u32),
}

/// The plan for a frame requested at `requested` while the texture has size
/// `current`.
pub open spec fn spec_plan(current: (usize, usize), requested: (usize, usize)) -> RenderPlan {
    let size = clamp_size(requested);
    RenderPlan {
        size,
        resize: size != current,
        extent: (size.0 as u32, size.1 as u32),
        workgroups: (spec_workgroups(size.0), spec_workgroups(size.1)),
    }
}

/// The number of work groups needed to cover `len` pixels along one side.
pub fn workgroup_count(len: usize) -> (n: u32)
    ensures
        n == spec_workgroups(len),
{
    let q = len / WORKGROUP_SIZE;
    let blocks = if len % WORKGROUP_SIZE == 0 {
        q
    } else {
        q + 1
    };
    assert(blocks == ceil_div(len as int, 16)) by (nonlinear_arith)
        requires
            q == len / 16,
            len % 16 == 0 ==> blocks == q,
            len % 16 != 0 ==> blocks == q + 1,
    {
    }
    blocks as u32
}

/// The size of a texture for `size` pixels; each side kept to its low 32 bits.
pub fn texture_extent(size: (usize, usize)) -> (e: (u32, u32))
    ensures
        e == (size.0 as u32, size.1 as u32),
{
    (size.0 as u32, size.1 as u32)
}

/// A requested size with both sides raised to at least `MIN_RENDER_SIZE`.
pub fn clamp_render_size(size: (usize, usize)) -> (c: (usize, usize))
    ensures
        c == clamp_size(size),
{
    let width = if size.0 < MIN_RENDER_SIZE {
        MIN_RENDER_SIZE
    } else {
        size.0
    };
    let height = if size.1 < MIN_RENDER_SIZE {
        MIN_RENDER_SIZE
    } else {
        size.1
    };
    (width, height)
}

/// The size of the texture a resizable compute pass renders into.
pub struct RenderTarget {
    size: (usize, usize),
}

impl View for RenderTarget {
    type V = (usize, usize);

    closed spec fn view(&self) -> (usize, usize) {
        self.size
    }
}

impl RenderTarget {
    #[verifier::type_invariant]
    spec fn inv(self) -> bool {
        self.size.0 >= MIN_RENDER_SIZE && self.size.1 >= MIN_RENDER_SIZE
    }

    /// The target before the first frame: `INITIAL_RENDER_SIZE` square.
    pub fn new() -> (t: Self)
        ensures
            t@ == (INITIAL_RENDER_SIZE, INITIAL_RENDER_SIZE),
    {
        RenderTarget { size: (INITIAL_RENDER_SIZE, INITIAL_RENDER_SIZE) }
    }

    /// The current texture size, never below `MIN_RENDER_SIZE` on either side.
    pub fn size(&self) -> (s: (usize, usize))
        ensures
            s == self@,
            s.0 >= MIN_RENDER_SIZE,
            s.1 >= MIN_RENDER_SIZE,
    {
        proof {
            use_type_invariant(self);
        }
        self.size
    }

    /// Plans a frame requested at `requested` pixels and records the size the
    /// texture will have afterwards. The size is raised to at least
    /// `MIN_RENDER_SIZE` on each side; the texture is recreated exactly when
    /// that size differs from the current one.
    pub fn prepare(&mut self, requested: (usize, usize)) -> (p: RenderPlan)
        ensures
            p == spec_plan(old(self)@, requested),
            final(self)@ == p.size,
            p.size == clamp_size(requested),
            p.resize == (p.size != old(self)@),
            p.workgroups == (spec_workgroups(p.size.0), spec_workgroups(p.size.1)),
    {
        let size = clamp_render_size(requested);
        let resize = size.0 != self.size.0 || size.1 != self.size.1;
        let extent = texture_extent(size);
        let workgroups = (workgroup_count(size.0), workgroup_count(size.1));
        self.size = size;
        RenderPlan { size, resize, extent, workgroups }
    }
}

/// Every target size that a plan leaves behind is at least `MIN_RENDER_SIZE`
/// on each side, so a frame never renders too small.
pub proof fn lemma_plan_never_too_small(current: (usize, usize), requested: (usize, usize))
    ensures
        spec_plan(current, requested).size.0 >= MIN_RENDER_SIZE,
        spec_plan(current, requested).size.1 >= MIN_RENDER_SIZE,
{
}

/// A request that is already large enough is rendered at exactly its size.
pub proof fn lemma_plan_keeps_large_request(current: (usize, usize), requested: (usize, usize))
    requires
        requested.0 >= MIN_RENDER_SIZE,
        requested.1 >= MIN_RENDER_SIZE,
    ensures
        spec_plan(current, requested).size == requested,
{
}

/// Repeating a request right after it was rendered never recreates the texture.
pub proof fn lemma_plan_repeat_keeps_texture(current: (usize, usize), requested: (usize, usize))
    ensures
        !spec_plan(spec_plan(current, requested).size, requested).resize,
        spec_plan(spec_plan(current, requested).size, requested).size == spec_plan(
            current,
            requested,
        ).size,
{
}

/// The texture is recreated exactly when the rendered size changes.
pub proof fn lemma_plan_resizes_iff_size_changes(current: (usize, usize), requested: (usize, usize))
    ensures
        spec_plan(current, requested).resize == (spec_plan(current, requested).size != current),
{
}

/// Along each axis on its own, the work groups of a plan cover the pixels
/// of that axis and no group lies wholly past them: x groups cover the width,
/// y groups the height (as long as each count fits a `u32`).
pub proof fn lemma_plan_workgroups_cover_each_axis(current: (usize, usize), requested: (usize, usize))
    requires
        requested.0 <= WORKGROUP_SIZE * 0xffff_ffff,
        requested.1 <= WORKGROUP_SIZE * 0xffff_ffff,
    ensures
        spec_plan(current, requested).workgroups.0 * WORKGROUP_SIZE >= spec_plan(current, requested).size.0,
        (spec_plan(current, requested).workgroups.0 - 1) * WORKGROUP_SIZE < spec_plan(
            current,
            requested,
        ).size.0,
        spec_plan(current, requested).workgroups.1 * WORKGROUP_SIZE >= spec_plan(current, requested).size.1,
        (spec_plan(current, requested).workgroups.1 - 1) * WORKGROUP_SIZE < spec_plan(
            current,
            requested,
        ).size.1,
{
    let p = spec_plan(current, requested);
    lemma_workgroups_cover(p.size.0);
    lemma_workgroups_cover(p.size.1);
}

/// The work groups of one side cover all of its pixels and no group lies
/// wholly beyond them, as long as the count fits a `u32`.
pub proof fn lemma_workgroups_cover(len: usize)
    requires
        len <= WORKGROUP_SIZE * 0xffff_ffff,
    ensures
        spec_workgroups(len) * WORKGROUP_SIZE >= len,
        len > 0 ==> (spec_workgroups(len) - 1) * WORKGROUP_SIZE < len,
{
    let n = ceil_div(len as int, 16);
    assert(0 <= n <= 0xffff_ffff) by (nonlinear_arith)
        requires
            n == (len + 15) / 16,
            0 <= len <= 16 * 0xffff_ffff,
    {
    }
    assert(n * 16 >= len && (len > 0 ==> (n - 1) * 16 < len)) by (nonlinear_arith)
        requires
            n == (len + 15) / 16,
            0 <= len,
    {
    }
}

} // verus!
