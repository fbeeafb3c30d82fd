//! The DFU functional descriptor and where it lies in a configuration's descriptors.

use vstd::prelude::*;

verus! {

/// The descriptor type that marks a DFU functional descriptor.
pub const DFU_FUNCTIONAL: u8 = 0x21;

/// The length in bytes of a DFU functional descriptor, and of each window that is
/// tested for one.
pub const DESCRIPTOR_LEN: usize = 9;

/// What a device says of its DFU capabilities.
#[derive(Clone, Copy, Debug, PartialEq, Eq)]
pub struct FunctionalDescriptor {
    pub can_download: bool,
    pub can_upload: bool,
    pub manifestation_tolerant: bool,
    pub will_detach: bool,
    /// Milliseconds the device waits for a reset after a detach request.
    pub detach_timeout: u16,
    /// The most bytes the device takes in one control write.
    pub transfer_size: u16,
    /// The DFU release the device follows, major then minor, as binary-coded decimal.
    pub dfu_version: (u8, u8),
}

/// Why bytes that carry the functional descriptor's type are no functional descriptor.
#[derive(Clone, Copy, Debug, PartialEq, Eq, Structural)]
pub enum DescriptorError {
    /// The record has this many bytes, fewer than the nine of a functional descriptor.
    DataTooShort(usize),
}

/// What one window of descriptor bytes decodes to: nothing where it has under two bytes
/// or another descriptor type; an error where it has the type and under nine bytes;
/// else the descriptor whose fields lie at their fixed places.
pub open spec fn decode_window(w: Seq<u8>) -> Option<Result<FunctionalDescriptor, DescriptorError>> {
    if w.len() < 2 || w[1] != DFU_FUNCTIONAL {
        None
    } else if w.len() < 9 {
        Some(Err(DescriptorError::DataTooShort(w.len() as usize)))
    } else {
        Some(
            Ok(
                FunctionalDescriptor {
                    can_download: w[2] & 0x01u8 != 0,
                    can_upload: w[2] & 0x02u8 != 0,
                    manifestation_tolerant: w[2] & 0x04u8 != 0,
                    will_detach: w[2] & 0x08u8 != 0,
                    detach_timeout: (w[3] as int + 256 * (w[4] as int)) as u16,
                    transfer_size: (w[5] as int + 256 * (w[6] as int)) as u16,
                    dfu_version: (w[8], w[7]),
                },
            ),
        )
    }
}

/// Calls `dfu_core::functional_descriptor::FunctionalDescriptor::from_bytes`. Taken on
/// trust: the call returns what `decode_window` says for the same bytes, field for field.
#[verifier::external_body]
pub(crate) fn decode_descriptor(window: &[u8]) -> (r: Option<
    Result<FunctionalDescriptor, DescriptorError>,
>)
    ensures
        r == decode_window(window@),
{
    match dfu_core::functional_descriptor::FunctionalDescriptor::from_bytes(window) {
        None => None,
        Some(Err(dfu_core::functional_descriptor::Error::DataTooShort(n))) => Some(Err(DescriptorError::DataTooShort(n))),
        Some(Ok(d)) => Some(Ok(FunctionalDescriptor {
            can_download: d.can_download,
            can_upload: d.can_upload,
            manifestation_tolerant: d.manifestation_tolerant,
            will_detach: d.will_detach,
            detach_timeout: d.detach_timeout,
            transfer_size: d.transfer_size,
            dfu_version: d.dfu_version,
        })),
    }
}

/// How many windows a descriptor stream of `len` bytes holds: one for every nine
/// bytes. What is left over behind the last of them is no window.
pub open spec fn window_count(len: nat) -> int {
    len as int / 9
}

/// Window `k` of a descriptor stream: the nine bytes from `9 * k` on.
pub open spec fn window(bytes: Seq<u8>, k: int) -> Seq<u8>
    recommends
        0 <= k < window_count(bytes.len()),
{
    bytes.subrange(9 * k, 9 * k + 9)
}

/// What the windows from window `from` on yield: the outcome of the first of them that
/// carries the functional descriptor's type.
pub open spec fn locate_from(bytes: Seq<u8>, from: int) -> Option<
    Result<FunctionalDescriptor, DescriptorError>,
>
    decreases window_count(bytes.len()) - from,
{
    if from < 0 || from >= window_count(bytes.len()) {
        None
    } else {
        match decode_window(window(bytes, from)) {
            Some(outcome) => Some(outcome),
            None => locate_from(bytes, from + 1),
        }
    }
}

/// What a whole descriptor stream yields.
pub open spec fn locate(bytes: Seq<u8>) -> Option<Result<FunctionalDescriptor, DescriptorError>> {
    locate_from(bytes, 0)
}

/// The windows lie end to end inside the stream: each holds nine of the stream's
/// bytes, those from `9 * k` on, and none reaches past the stream's end.
pub proof fn windows_lie_inside_the_stream(bytes: Seq<u8>, k: int)
    requires
        0 <= k < window_count(bytes.len()),
    ensures
        window(bytes, k).len() == 9,
        9 * k + 9 <= bytes.len(),
        forall|i: int| 0 <= i < 9 ==> window(bytes, k)[i] == bytes[9 * k + i],
{
}

/// A stream of fewer than nine bytes has no window and yields nothing, whatever its
/// bytes are; and bytes left over behind the last window change nothing: the stream
/// yields what it yields without them.
pub proof fn leftover_bytes_are_not_matched(bytes: Seq<u8>)
    ensures
        bytes.len() < 9 ==> locate(bytes) is None,
        locate(bytes) == locate(bytes.subrange(0, 9 * window_count(bytes.len()))),
{
    let whole = bytes.subrange(0, 9 * window_count(bytes.len()));
    assert(window_count(whole.len()) == window_count(bytes.len()));
    same_windows_same_outcome(bytes, whole, 0);
}

proof fn same_windows_same_outcome(a: Seq<u8>, b: Seq<u8>, from: int)
    requires
        0 <= from,
        window_count(a.len()) == window_count(b.len()),
        forall|i: int| 0 <= i < 9 * window_count(a.len()) ==> a[i] == b[i],
    ensures
        locate_from(a, from) == locate_from(b, from),
    decreases window_count(a.len()) - from,
{
    if from < window_count(a.len()) {
        assert(window(a, from) =~= window(b, from));
        same_windows_same_outcome(a, b, from + 1);
    }
}

/// Windows that decode to nothing are passed over: where none of the windows `from`
/// to `k - 1` carries the functional descriptor's type, the search from `from` yields
/// what the search from `k` yields.
pub proof fn locate_passes_over(bytes: Seq<u8>, from: int, k: int)
    requires
        0 <= from <= k <= window_count(bytes.len()),
        forall|j: int| from <= j < k ==> decode_window(#[trigger] window(bytes, j)) is None,
    ensures
        locate_from(bytes, from) == locate_from(bytes, k),
    decreases k - from,
{
    if from < k {
        assert(decode_window(window(bytes, from)) is None);
        locate_passes_over(bytes, from + 1, k);
    }
}

/// The first window that carries the functional descriptor's type decides: its outcome,
/// a descriptor or an error, is what the stream yields, whatever follows it.
pub proof fn locate_yields_first_match(
    bytes: Seq<u8>,
    k: int,
    outcome: Result<FunctionalDescriptor, DescriptorError>,
)
    requires
        0 <= k < window_count(bytes.len()),
        forall|j: int| 0 <= j < k ==> decode_window(#[trigger] window(bytes, j)) is None,
        decode_window(window(bytes, k)) == Some(outcome),
    ensures
        locate(bytes) == Some(outcome),
{
    locate_passes_over(bytes, 0, k);
}

/// A stream yields nothing exactly when none of its windows carries the functional
/// descriptor's type.
pub proof fn locate_none_iff_no_match(bytes: Seq<u8>)
    ensures
        locate(bytes) is None <==> (forall|j: int|
            0 <= j < window_count(bytes.len()) ==> decode_window(#[trigger] window(bytes, j))
                is None),
{
    locate_none_from(bytes, 0);
}

proof fn locate_none_from(bytes: Seq<u8>, from: int)
    requires
        0 <= from <= window_count(bytes.len()),
    ensures
        locate_from(bytes, from) is None <==> (forall|j: int|
            from <= j < window_count(bytes.len()) ==> decode_window(#[trigger] window(bytes, j))
                is None),
    decreases window_count(bytes.len()) - from,
{
    if from < window_count(bytes.len()) {
        locate_none_from(bytes, from + 1);
    }
}

/// A window that carries the functional descriptor's type always decodes to a
/// descriptor: with nine bytes at hand none of its fields can be missing.
pub proof fn window_of_the_type_is_a_descriptor(bytes: Seq<u8>, k: int)
    requires
        0 <= k < window_count(bytes.len()),
        window(bytes, k)[1] == DFU_FUNCTIONAL,
    ensures
        decode_window(window(bytes, k)) matches Some(Ok(_)),
{
}

/// No stream yields an error: it yields nothing, or a descriptor.
pub proof fn locate_is_never_an_error(bytes: Seq<u8>, from: int)
    requires
        0 <= from,
    ensures
        !(locate_from(bytes, from) matches Some(Err(_))),
    decreases window_count(bytes.len()) - from,
{
    if from < window_count(bytes.len()) {
        locate_is_never_an_error(bytes, from + 1);
    }
}

} // verus!
