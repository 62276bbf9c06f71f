use crate::error::CuError;
use vstd::prelude::*;

verus! {

/// Block shape recorded by the legacy launch-configuration call.
pub struct LegacyArguments {
    block_shape: Option<(i32, i32, i32)>,
}

impl LegacyArguments {
    /// The recorded block shape, if any.
    pub closed spec fn view(&self) -> Option<(i32, i32, i32)> {
        self.block_shape
    }

    pub fn new() -> (r: Self)
        ensures
            r@ is None,
    {
        LegacyArguments { block_shape: None }
    }

    pub fn is_initialized(&self) -> (r: bool)
        ensures
            r == self@ is Some,
    {
        self.block_shape.is_some()
    }

    pub fn reset(&mut self)
        ensures
            final(self)@ is None,
    {
        self.block_shape = None;
    }

    /// Records a block shape in place of any earlier one.
    pub fn set_block_shape(&mut self, x: i32, y: i32, z: i32)
        ensures
            final(self)@ == Some((x, y, z)),
    {
        self.block_shape = Some((x, y, z));
    }

    pub fn block_shape(&self) -> (r: Option<(i32, i32, i32)>)
        ensures
            r == self@,
    {
        self.block_shape
    }
}

/// A compiled kernel: its declared argument sizes and legacy launch state.
pub struct FunctionData {
    pub base: u32,
    pub arg_size: Vec<usize>,
    pub use_shared_mem: bool,
    pub legacy_args: LegacyArguments,
}

impl FunctionData {
    pub fn new(base: u32, arg_size: Vec<usize>, use_shared_mem: bool) -> (r: Self)
        ensures
            r.base == base,
            r.arg_size@ == arg_size@,
            r.use_shared_mem == use_shared_mem,
            r.legacy_args@ is None,
    {
        FunctionData { base, arg_size, use_shared_mem, legacy_args: LegacyArguments::new() }
    }

    /// Teardown hook run before a function handle is destroyed.
    pub fn try_drop(&mut self) -> (r: Result<(), CuError>)
        ensures
            r is Ok,
            *final(self) == *old(self),
    {
        Ok(())
    }
}

/// One entry of the legacy launch list of `(tag, value)` pairs.
#[derive(Clone, Copy, Debug, PartialEq, Eq, Structural)]
pub enum LaunchParam {
    /// The end marker.
    End,
    /// The address of the packed argument buffer.
    BufferPointer(u64),
    /// The declared size of the packed argument buffer.
    BufferSize(usize),
    /// Any other tag.
    Unknown(u64),
}

/// `x` rounded up to the nearest multiple of `m`.
pub open spec fn round_up(x: int, m: int) -> int {
    ((x + m - 1) / m) * m
}

/// Size of the buffer that packs arguments of the given sizes, each one at an
/// offset rounded up to a multiple of its own size; `None` where an argument
/// has size zero, which gives no alignment.
pub open spec fn packed_size(sizes: Seq<usize>) -> Option<int>
    decreases sizes.len(),
{
    if sizes.len() == 0 {
        Some(0)
    } else {
        let m = sizes.last() as int;
        match packed_size(sizes.drop_last()) {
            Some(o) => if m == 0 {
                None
            } else {
                Some(round_up(o, m) + m)
            },
            None => None,
        }
    }
}

/// Result of scanning the legacy list from position `i`, with the buffer
/// pointer and size seen so far: the last pointer and size before the end
/// marker, or `None` on an unknown tag, a missing end marker, or an end marker
/// reached without both.
pub open spec fn scan_from(
    s: Seq<LaunchParam>,
    i: int,
    ptr: Option<u64>,
    size: Option<usize>,
) -> Option<(u64, usize)>
    decreases s.len() - i,
{
    if i < 0 || i >= s.len() {
        None
    } else {
        match s[i] {
            LaunchParam::End => match (ptr, size) {
                (Some(p), Some(n)) => Some((p, n)),
                _ => None,
            },
            LaunchParam::BufferPointer(p) => scan_from(s, i + 1, Some(p), size),
            LaunchParam::BufferSize(n) => scan_from(s, i + 1, ptr, Some(n)),
            LaunchParam::Unknown(_) => None,
        }
    }
}

pub open spec fn scan_params(s: Seq<LaunchParam>) -> Option<(u64, usize)> {
    scan_from(s, 0, None, None)
}

/// What a legacy launch of a function with these argument sizes gives.
pub open spec fn legacy_launch_result(sizes: Seq<usize>, s: Seq<LaunchParam>) -> Result<(), CuError> {
    match scan_params(s) {
        Some((_, n)) => if packed_size(sizes) == Some(n as int) {
            Ok(())
        } else {
            Err(CuError::InvalidValue)
        },
        None => Err(CuError::InvalidValue),
    }
}

proof fn lemma_scan_unknown(s: Seq<LaunchParam>, i: int, k: int, ptr: Option<u64>, size: Option<usize>)
    requires
        0 <= i <= k < s.len(),
        s[k] is Unknown,
        forall|j: int| i <= j < k ==> !(s[j] is End),
    ensures
        scan_from(s, i, ptr, size) is None,
    decreases k - i,
{
    if i < k {
        match s[i] {
            LaunchParam::BufferPointer(p) => lemma_scan_unknown(s, i + 1, k, Some(p), size),
            LaunchParam::BufferSize(n) => lemma_scan_unknown(s, i + 1, k, ptr, Some(n)),
            _ => {},
        }
    }
}

proof fn lemma_scan_no_size(s: Seq<LaunchParam>, i: int, k: int, ptr: Option<u64>)
    requires
        0 <= i <= k < s.len(),
        s[k] is End,
        forall|j: int| i <= j < k ==> !(s[j] is End) && !(s[j] is BufferSize),
    ensures
        scan_from(s, i, ptr, None) is None,
    decreases k - i,
{
    if i < k {
        if let LaunchParam::BufferPointer(p) = s[i] {
            lemma_scan_no_size(s, i + 1, k, Some(p));
        }
    }
}

proof fn lemma_scan_no_pointer(s: Seq<LaunchParam>, i: int, k: int, size: Option<usize>)
    requires
        0 <= i <= k < s.len(),
        s[k] is End,
        forall|j: int| i <= j < k ==> !(s[j] is End) && !(s[j] is BufferPointer),
    ensures
        scan_from(s, i, None, size) is None,
    decreases k - i,
{
    if i < k {
        if let LaunchParam::BufferSize(n) = s[i] {
            lemma_scan_no_pointer(s, i + 1, k, Some(n));
        }
    }
}

/// An unrecognised tag anywhere before the first end marker makes the legacy
/// scan fail.
pub proof fn lemma_unknown_tag_rejected(s: Seq<LaunchParam>, k: int)
    requires
        0 <= k < s.len(),
        s[k] is Unknown,
        forall|j: int| 0 <= j < k ==> !(s[j] is End),
    ensures
        scan_params(s) is None,
{
    lemma_scan_unknown(s, 0, k, None, None);
}

/// Reaching the end marker with a buffer pointer but no buffer size, or with
/// a size but no pointer, makes the legacy scan fail.
pub proof fn lemma_incomplete_buffer_rejected(s: Seq<LaunchParam>, k: int)
    requires
        0 <= k < s.len(),
        s[k] is End,
        forall|j: int| 0 <= j < k ==> !(s[j] is End),
        (forall|j: int| 0 <= j < k ==> !(s[j] is BufferSize))
            || (forall|j: int| 0 <= j < k ==> !(s[j] is BufferPointer)),
    ensures
        scan_params(s) is None,
{
    if forall|j: int| 0 <= j < k ==> !(s[j] is BufferSize) {
        lemma_scan_no_size(s, 0, k, None);
    } else {
        lemma_scan_no_pointer(s, 0, k, None);
    }
}

/// `s[j]` is the last buffer size before position `k`, from position `i` on.
pub open spec fn last_size_at(s: Seq<LaunchParam>, i: int, k: int, j: int, n: usize) -> bool {
    &&& i <= j < k
    &&& s[j] == LaunchParam::BufferSize(n)
    &&& forall|l: int| j < l < k ==> !(#[trigger] s[l] is BufferSize)
}

/// `s[j]` is the last buffer pointer before position `k`, from position `i` on.
pub open spec fn last_pointer_at(s: Seq<LaunchParam>, i: int, k: int, j: int, p: u64) -> bool {
    &&& i <= j < k
    &&& s[j] == LaunchParam::BufferPointer(p)
    &&& forall|l: int| j < l < k ==> !(#[trigger] s[l] is BufferPointer)
}

proof fn lemma_scan_last(s: Seq<LaunchParam>, i: int, k: int, ptr: Option<u64>, size: Option<usize>)
    requires
        0 <= i <= k < s.len(),
        s[k] is End,
        forall|l: int| i <= l < k ==> (#[trigger] s[l] is BufferPointer || s[l] is BufferSize),
        ptr is Some || exists|l: int| i <= l < k && #[trigger] s[l] is BufferPointer,
        size is Some || exists|l: int| i <= l < k && #[trigger] s[l] is BufferSize,
    ensures
        scan_from(s, i, ptr, size) matches Some((p, n)) && {
            &&& (exists|j: int| last_size_at(s, i, k, j, n)) || (size == Some(n) && forall|l: int|
                i <= l < k ==> !(#[trigger] s[l] is BufferSize))
            &&& (exists|j: int| last_pointer_at(s, i, k, j, p)) || (ptr == Some(p) && forall|l: int|
                i <= l < k ==> !(#[trigger] s[l] is BufferPointer))
        },
    decreases k - i,
{
    if i < k {
        if size is None {
            let w = choose|l: int| i <= l < k && #[trigger] s[l] is BufferSize;
            assert(s[w] is BufferSize);
        }
        if ptr is None {
            let w = choose|l: int| i <= l < k && #[trigger] s[l] is BufferPointer;
            assert(s[w] is BufferPointer);
        }
        let i1 = i + 1;
        match s[i] {
            LaunchParam::BufferPointer(q) => {
                lemma_scan_last(s, i + 1, k, Some(q), size);
                let (p, n) = scan_from(s, i + 1, Some(q), size)->Some_0;
                if exists|j: int| last_size_at(s, i1, k, j, n) {
                    let j = choose|j: int| last_size_at(s, i1, k, j, n);
                    assert(last_size_at(s, i, k, j, n));
                }
                if exists|j: int| last_pointer_at(s, i1, k, j, p) {
                    let j = choose|j: int| last_pointer_at(s, i1, k, j, p);
                    assert(last_pointer_at(s, i, k, j, p));
                } else {
                    assert(last_pointer_at(s, i, k, i, p));
                }
            },
            LaunchParam::BufferSize(m) => {
                lemma_scan_last(s, i + 1, k, ptr, Some(m));
                let (p, n) = scan_from(s, i + 1, ptr, Some(m))->Some_0;
                if exists|j: int| last_pointer_at(s, i1, k, j, p) {
                    let j = choose|j: int| last_pointer_at(s, i1, k, j, p);
                    assert(last_pointer_at(s, i, k, j, p));
                }
                if exists|j: int| last_size_at(s, i1, k, j, n) {
                    let j = choose|j: int| last_size_at(s, i1, k, j, n);
                    assert(last_size_at(s, i, k, j, n));
                } else {
                    assert(last_size_at(s, i, k, i, n));
                }
            },
            _ => {
                assert(s[i] is BufferPointer || s[i] is BufferSize);
            },
        }
    }
}

/// A legacy list whose entries before its end marker are buffer pointers and
/// sizes, with at least one pointer, is accepted exactly when the last size
/// before the marker equals the packed size of the arguments, each argument
/// at an offset rounded up to a multiple of its own size.
pub proof fn lemma_legacy_size_must_match(
    sizes: Seq<usize>,
    s: Seq<LaunchParam>,
    k: int,
    j: int,
    n: usize,
)
    requires
        0 <= k < s.len(),
        s[k] is End,
        forall|l: int| 0 <= l < k ==> (#[trigger] s[l] is BufferPointer || s[l] is BufferSize),
        exists|l: int| 0 <= l < k && #[trigger] s[l] is BufferPointer,
        last_size_at(s, 0, k, j, n),
    ensures
        (legacy_launch_result(sizes, s) is Ok) <==> packed_size(sizes) == Some(n as int),
        legacy_launch_result(sizes, s) is Err ==> legacy_launch_result(sizes, s) == Err::<(), CuError>(
            CuError::InvalidValue,
        ),
{
    assert(s[j] is BufferSize);
    lemma_scan_last(s, 0, k, None, None);
    let (p, m) = scan_params(s)->Some_0;
    let j2 = choose|j2: int| last_size_at(s, 0, k, j2, m);
    if j < j2 {
        assert(s[j2] is BufferSize);
    } else if j2 < j {
        assert(s[j] is BufferSize);
    }
    assert(m == n);
}

proof fn lemma_round_up_bounds(x: int, m: int)
    requires
        x >= 0,
        m > 0,
    ensures
        x <= round_up(x, m) <= x + m - 1,
{
    let a = x + m - 1;
    vstd::arithmetic::div_mod::lemma_fundamental_div_mod(a, m);
    assert(0 <= a % m < m);
    vstd::arithmetic::mul::lemma_mul_is_commutative(m, a / m);
}

proof fn lemma_packed_nonneg(s: Seq<usize>)
    ensures
        packed_size(s) matches Some(a) ==> a >= 0,
    decreases s.len(),
{
    if s.len() > 0 {
        lemma_packed_nonneg(s.drop_last());
        if let Some(o) = packed_size(s.drop_last()) {
            if s.last() > 0 {
                lemma_round_up_bounds(o, s.last() as int);
            }
        }
    }
}

proof fn lemma_packed_grows(s: Seq<usize>, i: int, j: int)
    requires
        0 <= i <= j <= s.len(),
    ensures
        packed_size(s.take(i)) is None ==> packed_size(s.take(j)) is None,
        packed_size(s.take(i)) matches Some(a) ==> (packed_size(s.take(j)) matches Some(b)
            ==> a <= b),
    decreases j - i,
{
    if i < j {
        lemma_packed_grows(s, i, j - 1);
        assert(s.take(j).drop_last() =~= s.take(j - 1));
        if let Some(o) = packed_size(s.take(j - 1)) {
            lemma_packed_nonneg(s.take(j - 1));
            if s[j - 1] > 0 {
                lemma_round_up_bounds(o, s[j - 1] as int);
            }
        }
    }
}

/// `x` rounded up to the nearest multiple of `multiple`.
pub fn round_up_to_multiple(x: usize, multiple: usize) -> (r: usize)
    requires
        multiple > 0,
        x + multiple - 1 <= usize::MAX,
    ensures
        r == round_up(x as int, multiple as int),
{
    proof {
        lemma_round_up_bounds(x as int, multiple as int);
    }
    ((x + (multiple - 1)) / multiple) * multiple
}

/// The buffer size that a legacy launch must declare for these argument
/// sizes, or `None` where there is none that a `usize` holds.
pub fn required_buffer_size(arg_size: &Vec<usize>) -> (r: Option<usize>)
    ensures
        r matches Some(n) ==> packed_size(arg_size@) == Some(n as int),
        r is None ==> !(packed_size(arg_size@) matches Some(n) && n <= usize::MAX),
{
    let mut offset: usize = 0;
    let mut i: usize = 0;
    proof {
        assert(arg_size@.take(0) =~= Seq::<usize>::empty());
    }
    while i < arg_size.len()
        invariant
            i <= arg_size@.len(),
            packed_size(arg_size@.take(i as int)) == Some(offset as int),
        decreases arg_size@.len() - i,
    {
        let m = arg_size[i];
        proof {
            assert(arg_size@.take(i + 1).drop_last() =~= arg_size@.take(i as int));
            lemma_packed_grows(arg_size@, i + 1, arg_size@.len() as int);
            assert(arg_size@.take(arg_size@.len() as int) =~= arg_size@);
        }
        if m == 0 {
            return None;
        }
        proof {
            lemma_packed_nonneg(arg_size@.take(i as int));
            lemma_round_up_bounds(offset as int, m as int);
        }
        if offset > usize::MAX - (m - 1) {
            return None;
        }
        let start = round_up_to_multiple(offset, m);
        if start > usize::MAX - m {
            return None;
        }
        offset = start + m;
        i = i + 1;
    }
    proof {
        assert(arg_size@.take(i as int) =~= arg_size@);
    }
    Some(offset)
}

/// Scans the legacy list up to its end marker for the buffer pointer and size.
pub fn scan_legacy_params(extra: &Vec<LaunchParam>) -> (r: Result<(u64, usize), CuError>)
    ensures
        r == match scan_params(extra@) {
            Some(v) => Ok(v),
            None => Err(CuError::InvalidValue),
        },
{
    let mut ptr: Option<u64> = None;
    let mut size: Option<usize> = None;
    let mut i: usize = 0;
    while i < extra.len()
        invariant
            i <= extra@.len(),
            scan_params(extra@) == scan_from(extra@, i as int, ptr, size),
        decreases extra@.len() - i,
    {
        match extra[i] {
            LaunchParam::End => {
                return match (ptr, size) {
                    (Some(p), Some(n)) => Ok((p, n)),
                    _ => Err(CuError::InvalidValue),
                };
            },
            LaunchParam::BufferPointer(p) => {
                ptr = Some(p);
            },
            LaunchParam::BufferSize(n) => {
                size = Some(n);
            },
            LaunchParam::Unknown(_) => {
                return Err(CuError::InvalidValue);
            },
        }
        i = i + 1;
    }
    Err(CuError::InvalidValue)
}

/// Checks a legacy launch list against the function's argument sizes: the
/// list must name a buffer pointer and size, and the size must equal the
/// packed size of the arguments.
pub fn check_legacy_launch(arg_size: &Vec<usize>, extra: &Vec<LaunchParam>) -> (r: Result<(), CuError>)
    ensures
        r == legacy_launch_result(arg_size@, extra@),
{
    let (_buffer_ptr, buffer_size) = scan_legacy_params(extra)?;
    match required_buffer_size(arg_size) {
        Some(n) => if n == buffer_size {
            Ok(())
        } else {
            Err(CuError::InvalidValue)
        },
        None => Err(CuError::InvalidValue),
    }
}

/// Function attributes are not mapped yet: an invalid value for a missing
/// function, not supported otherwise.
pub fn get_attribute(attrib: u32, func: Option<crate::handle::Handle>) -> (r: Result<i32, CuError>)
    ensures
        r == if func is None {
            Err::<i32, CuError>(CuError::InvalidValue)
        } else {
            Err::<i32, CuError>(CuError::NotSupported)
        },
{
    match func {
        Some(_) => Err(CuError::NotSupported),
        None => Err(CuError::InvalidValue),
    }
}

} // verus!
