use vstd::prelude::*;

verus! {

/// windows-core's `HRESULT`: a COM status, its one public field the 32-bit
/// code.
#[verifier::external_type_specification]
pub struct ExHRESULT(windows::core::HRESULT);

/// A status returned by the performance data helper functions: 0 on
/// success, an error or warning code otherwise.
#[allow(non_camel_case_types)]
#[derive(Clone, Copy, Debug, PartialEq, Eq, Structural)]
pub struct PDH_FUNCTION(pub u32);

impl PDH_FUNCTION {
    pub fn is_ok(self) -> (r: bool)
        ensures
            r == (self.0 == 0),
    {
        self.0 == 0
    }

    pub fn is_err(self) -> (r: bool)
        ensures
            r == (self.0 != 0),
    {
        !self.is_ok()
    }

    /// The same 32 bits as an `HRESULT`.
    pub fn to_hresult(self) -> (r: windows::core::HRESULT)
        ensures
            r.0 == self.0 as i32,
    {
        windows::core::HRESULT(self.0 as i32)
    }

    /// The status with the same 32 bits as `code`.
    pub fn from_hresult(code: windows::core::HRESULT) -> (r: Self)
        ensures
            r.0 == code.0 as u32,
    {
        PDH_FUNCTION(code.0 as u32)
    }
}

/// Scanning a list of null-terminated UTF-16 paths: after the first `n`
/// code units, where the current path began and the paths found so far.
/// Each null ends the path that began after the previous one, except a null
/// right where a path would begin, which ends none.
pub open spec fn split_state(buffer: Seq<u16>, n: nat) -> (int, Seq<Seq<u16>>)
    decreases n,
{
    if n == 0 {
        (0, Seq::empty())
    } else {
        let (start, paths) = split_state(buffer, (n - 1) as nat);
        let i = n - 1;
        if buffer[i] == 0 && i != start {
            (i + 1, paths.push(buffer.subrange(start, i)))
        } else {
            (start, paths)
        }
    }
}

/// The paths of a null-separated list, as `PdhExpandWildCardPathW` fills
/// it: the list ends with an empty path.
pub open spec fn path_list(buffer: Seq<u16>) -> Seq<Seq<u16>> {
    split_state(buffer, buffer.len()).1
}

proof fn lemma_split_start_bounded(buffer: Seq<u16>, n: nat)
    requires
        n <= buffer.len(),
    ensures
        0 <= split_state(buffer, n).0 <= n,
    decreases n,
{
    if n > 0 {
        lemma_split_start_bounded(buffer, (n - 1) as nat);
    }
}

fn copy_range(buffer: &Vec<u16>, start: usize, end: usize) -> (r: Vec<u16>)
    requires
        start <= end <= buffer@.len(),
    ensures
        r@ == buffer@.subrange(start as int, end as int),
{
    let mut r: Vec<u16> = Vec::with_capacity(end - start);
    let mut i = start;
    while i < end
        invariant
            start <= i <= end <= buffer@.len(),
            r@ == buffer@.subrange(start as int, i as int),
        decreases end - i,
    {
        r.push(buffer[i]);
        i = i + 1;
    }
    r
}

/// Splits a null-separated list of UTF-16 paths into its paths, in order.
pub fn parse_path_list(buffer: &Vec<u16>) -> (r: Vec<Vec<u16>>)
    ensures
        r@.map_values(|p: Vec<u16>| p@) == path_list(buffer@),
{
    let mut paths: Vec<Vec<u16>> = Vec::new();
    let mut start: usize = 0;
    let n = buffer.len();
    for i in 0..n
        invariant
            n == buffer@.len(),
            start as int == split_state(buffer@, i as nat).0,
            paths@.map_values(|p: Vec<u16>| p@) == split_state(buffer@, i as nat).1,
    {
        proof {
            lemma_split_start_bounded(buffer@, i as nat);
        }
        if buffer[i] == 0 && i != start {
            let path = copy_range(buffer, start, i);
            let ghost before = paths@;
            paths.push(path);
            proof {
                assert(paths@.map_values(|p: Vec<u16>| p@) =~= before.map_values(
                    |p: Vec<u16>| p@,
                ).push(buffer@.subrange(start as int, i as int)));
            }
            start = i + 1;
        }
    }
    paths
}

} // verus!
