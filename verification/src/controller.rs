use vstd::prelude::*;

verus! {

/// What one adaptive trigger is asked to do.
#[derive(Debug, Clone, Copy, PartialEq, Eq, Structural)]
pub enum TriggerMode {
    /// No resistance.
    Off,
    /// Constant resistance of the given force.
    Rigid(u8),
    /// Vibration: frequency, amplitude.
    Pulse(u8, u8),
    /// Zoned resistance: active-zone mask, packed 3-bit zone strengths.
    Feedback(u16, u32),
    /// Zoned vibration: active-zone mask, packed 3-bit zone strengths, frequency.
    PulseAB(u16, u32, u8),
}

/// How the controller is attached, which decides the shape of its output report.
#[derive(Debug, Clone, Copy, PartialEq, Eq, Structural)]
pub enum ReportLayout {
    Usb,
    Bluetooth,
}

/// Vendor id of the controller.
pub const VENDOR_ID: u16 = 0x054C;

/// Product id of the DualSense.
pub const PRODUCT_ID_DUALSENSE: u16 = 0x0CE6;

/// Product id of the DualSense Edge.
pub const PRODUCT_ID_DUALSENSE_EDGE: u16 = 0x0DF2;

// ------------------------------------------------------------------
// Report layout
// ------------------------------------------------------------------

pub open spec fn is_bluetooth(layout: ReportLayout) -> bool {
    layout == ReportLayout::Bluetooth
}

/// The report id in byte 0.
pub open spec fn report_id(layout: ReportLayout) -> u8 {
    if is_bluetooth(layout) {
        0x31
    } else {
        0x02
    }
}

/// Where the valid-flags byte sits.
pub open spec fn flags_offset(layout: ReportLayout) -> int {
    if is_bluetooth(layout) {
        2
    } else {
        1
    }
}

/// Where the right trigger's block starts.
pub open spec fn right_offset(layout: ReportLayout) -> int {
    if is_bluetooth(layout) {
        12
    } else {
        11
    }
}

/// Where the left trigger's block starts.
pub open spec fn left_offset(layout: ReportLayout) -> int {
    if is_bluetooth(layout) {
        23
    } else {
        22
    }
}

/// Total length of the report.
pub open spec fn report_size(layout: ReportLayout) -> int {
    if is_bluetooth(layout) {
        78
    } else {
        64
    }
}

/// The two little-endian bytes of a `u16`.
pub open spec fn le16(x: u16) -> Seq<u8> {
    seq![(x & 0xff) as u8, (x >> 8u16) as u8]
}

/// The four little-endian bytes of a `u32`.
pub open spec fn le32(x: u32) -> Seq<u8> {
    seq![
        (x & 0xff) as u8,
        ((x >> 8u32) & 0xff) as u8,
        ((x >> 16u32) & 0xff) as u8,
        (x >> 24u32) as u8,
    ]
}

/// The eleven bytes that describe one trigger's mode: a mode code, then its parameters,
/// then zeros.
pub open spec fn mode_bytes(mode: TriggerMode) -> Seq<u8> {
    match mode {
        TriggerMode::Off => seq![0x05u8, 0, 0, 0, 0, 0, 0, 0, 0, 0, 0],
        TriggerMode::Rigid(force) => seq![0x01u8, 0, force, 0, 0, 0, 0, 0, 0, 0, 0],
        TriggerMode::Pulse(freq, amp) => seq![0x06u8, freq, amp, 0, 0, 0, 0, 0, 0, 0, 0],
        TriggerMode::Feedback(active, force) => seq![0x21u8] + le16(active) + le32(force) + seq![
            0u8,
            0,
            0,
            0,
        ],
        TriggerMode::PulseAB(active, force, freq) => seq![0x26u8] + le16(active) + le32(force)
            + seq![freq, 0u8, 0, 0],
    }
}

/// The mode code that a trigger mode puts first in its block.
pub open spec fn mode_code(mode: TriggerMode) -> u8 {
    match mode {
        TriggerMode::Off => 0x05,
        TriggerMode::Rigid(_) => 0x01,
        TriggerMode::Pulse(_, _) => 0x06,
        TriggerMode::Feedback(_, _) => 0x21,
        TriggerMode::PulseAB(_, _, _) => 0x26,
    }
}

/// The report before any checksum: report id, the Bluetooth tag byte, the valid-flags byte
/// enabling both triggers, the two trigger blocks, zeros elsewhere.
pub open spec fn report_body(layout: ReportLayout, left: TriggerMode, right: TriggerMode) -> Seq<
    u8,
> {
    Seq::new(
        report_size(layout) as nat,
        |i: int|
            if i == 0 {
                report_id(layout)
            } else if is_bluetooth(layout) && i == 1 {
                0x02u8
            } else if i == flags_offset(layout) {
                0x0Cu8
            } else if right_offset(layout) <= i < right_offset(layout) + 11 {
                mode_bytes(right)[i - right_offset(layout)]
            } else if left_offset(layout) <= i < left_offset(layout) + 11 {
                mode_bytes(left)[i - left_offset(layout)]
            } else {
                0u8
            },
    )
}

/// The CRC-32 (IEEE) checksum of a byte sequence, as computed by `crc32fast::hash`.
pub uninterp spec fn crc32_ieee(data: Seq<u8>) -> u32;

/// A Bluetooth report with the checksum `crc` over its first 74 bytes written, little-endian,
/// into its last four.
pub open spec fn sealed_report(report: Seq<u8>, crc: u32) -> Seq<u8> {
    report.subrange(0, 74) + le32(crc)
}

/// The output report that carries the two trigger modes.
pub open spec fn output_report(layout: ReportLayout, left: TriggerMode, right: TriggerMode) -> Seq<
    u8,
> {
    let body = report_body(layout, left, right);
    if is_bluetooth(layout) {
        sealed_report(body, crc32_ieee(body.subrange(0, 74)))
    } else {
        body
    }
}

/// `crc32fast::hash` over the first `n` bytes of `data`.
///
/// Trusted: the result is the CRC-32 (IEEE) checksum of those bytes, named `crc32_ieee`;
/// the function never panics.
#[verifier::external_body]
fn crc32_prefix(data: &[u8], n: usize) -> (crc: u32)
    requires
        n <= data@.len(),
    ensures
        crc == crc32_ieee(data@.subrange(0, n as int)),
{
    crc32fast::hash(&data[..n])
}

fn le16_bytes(x: u16) -> (b: [u8; 2])
    ensures
        b@ == le16(x),
{
    let b = [(x & 0xff) as u8, (x >> 8u16) as u8];
    assert(b@ =~= le16(x));
    b
}

fn le32_bytes(x: u32) -> (b: [u8; 4])
    ensures
        b@ == le32(x),
{
    let b = [(x & 0xff) as u8, ((x >> 8u32) & 0xff) as u8, ((x >> 16u32) & 0xff) as u8, (x
        >> 24u32) as u8];
    assert(b@ =~= le32(x));
    b
}

fn mode_block(mode: &TriggerMode) -> (block: [u8; 11])
    ensures
        block@ == mode_bytes(*mode),
{
    match mode {
        TriggerMode::Off => {
            let b = [0x05u8, 0, 0, 0, 0, 0, 0, 0, 0, 0, 0];
            assert(b@ =~= mode_bytes(*mode));
            b
        },
        TriggerMode::Rigid(force) => {
            let b = [0x01u8, 0, *force, 0, 0, 0, 0, 0, 0, 0, 0];
            assert(b@ =~= mode_bytes(*mode));
            b
        },
        TriggerMode::Pulse(freq, amp) => {
            let b = [0x06u8, *freq, *amp, 0, 0, 0, 0, 0, 0, 0, 0];
            assert(b@ =~= mode_bytes(*mode));
            b
        },
        TriggerMode::Feedback(active, force) => {
            let a = le16_bytes(*active);
            let f = le32_bytes(*force);
            let b = [0x21u8, a[0], a[1], f[0], f[1], f[2], f[3], 0, 0, 0, 0];
            assert(b@ =~= mode_bytes(*mode));
            b
        },
        TriggerMode::PulseAB(active, force, freq) => {
            let a = le16_bytes(*active);
            let f = le32_bytes(*force);
            let b = [0x26u8, a[0], a[1], f[0], f[1], f[2], f[3], *freq, 0, 0, 0];
            assert(b@ =~= mode_bytes(*mode));
            b
        },
    }
}

/// Writes a trigger's block at `pos`, leaving the rest of the buffer as it was.
fn apply_mode(pos: usize, mode: &TriggerMode, buf: &mut Vec<u8>)
    requires
        pos + 11 <= old(buf)@.len(),
    ensures
        final(buf)@ == old(buf)@.subrange(0, pos as int) + mode_bytes(*mode) + old(buf)@.subrange(
            pos + 11,
            old(buf)@.len() as int,
        ),
{
    let block = mode_block(mode);
    let mut k: usize = 0;
    while k < 11
        invariant
            0 <= k <= 11,
            pos + 11 <= old(buf)@.len(),
            pos + 11 <= buf.len(),
            block@ == mode_bytes(*mode),
            buf@.len() == old(buf)@.len(),
            forall|j: int|
                0 <= j < buf@.len() ==> #[trigger] buf@[j] == (if pos <= j < pos + k {
                    block@[j - pos]
                } else {
                    old(buf)@[j]
                }),
        decreases 11 - k,
    {
        buf[pos + k] = block[k];
        k = k + 1;
    }
    assert(buf@ =~= old(buf)@.subrange(0, pos as int) + mode_bytes(*mode) + old(buf)@.subrange(
        pos + 11,
        old(buf)@.len() as int,
    ));
}

/// Writes the checksum of a Bluetooth report, little-endian, into its last four bytes.
pub fn seal_bluetooth_report(report: &mut Vec<u8>, crc: u32)
    requires
        old(report)@.len() == 78,
    ensures
        final(report)@ == sealed_report(old(report)@, crc),
{
    let b = le32_bytes(crc);
    report[74] = b[0];
    report[75] = b[1];
    report[76] = b[2];
    report[77] = b[3];
    assert(report@ =~= sealed_report(old(report)@, crc));
}

/// Builds the output report that sets both adaptive triggers.
pub fn build_report(layout: ReportLayout, left: &TriggerMode, right: &TriggerMode) -> (report: Vec<
    u8,
>)
    ensures
        report@ == output_report(layout, *left, *right),
{
    let bt = match layout {
        ReportLayout::Bluetooth => true,
        ReportLayout::Usb => false,
    };
    let (rid, flags, r, l, size): (u8, usize, usize, usize, usize) = if bt {
        (0x31, 2, 12, 23, 78)
    } else {
        (0x02, 1, 11, 22, 64)
    };
    let mut buf: Vec<u8> = vec![0u8; size];
    buf[0] = rid;
    if bt {
        buf[1] = 0x02;
    }
    buf[flags] = 0x0C;
    let ghost before = buf@;
    apply_mode(r, right, &mut buf);
    let ghost middle = buf@;
    apply_mode(l, left, &mut buf);
    let ghost body = report_body(layout, *left, *right);
    assert forall|i: int| 0 <= i < buf@.len() implies #[trigger] buf@[i] == body[i] by {
        if r <= i < r + 11 {
            assert(middle[i] == mode_bytes(*right)[i - r]);
        }
    }
    assert(buf@ =~= body);
    if bt {
        let crc = crc32_prefix(buf.as_slice(), 74);
        seal_bluetooth_report(&mut buf, crc);
    }
    buf
}

// ------------------------------------------------------------------
// Device discovery
// ------------------------------------------------------------------

/// Whether a HID interface is the gamepad interface of a DualSense or DualSense Edge.
pub open spec fn is_dualsense_gamepad(vendor_id: u16, product_id: u16, usage_page: u16, usage: u16) -> bool {
    &&& vendor_id == VENDOR_ID
    &&& (product_id == PRODUCT_ID_DUALSENSE || product_id == PRODUCT_ID_DUALSENSE_EDGE)
    &&& usage_page == 1
    &&& usage == 5
}

/// Decides whether a HID interface is one to open.
pub fn is_dualsense_interface(vendor_id: u16, product_id: u16, usage_page: u16, usage: u16) -> (r: bool)
    ensures
        r == is_dualsense_gamepad(vendor_id, product_id, usage_page, usage),
{
    vendor_id == VENDOR_ID && (product_id == PRODUCT_ID_DUALSENSE || product_id
        == PRODUCT_ID_DUALSENSE_EDGE) && usage_page == 1 && usage == 5
}

/// `pat` occurs in `s` as a contiguous run.
pub open spec fn contains_run(s: Seq<u8>, pat: Seq<u8>) -> bool {
    exists|i: int| 0 <= i && i + pat.len() <= s.len() && #[trigger] s.subrange(i, i + pat.len()) == pat
}

/// "BTHENUM", the Windows Bluetooth enumerator's name.
pub open spec fn bthenum() -> Seq<u8> {
    seq![66u8, 84, 72, 69, 78, 85, 77]
}

/// "BLUETOOTH".
pub open spec fn bluetooth_word() -> Seq<u8> {
    seq![66u8, 76, 85, 69, 84, 79, 79, 84, 72]
}

/// The layout a device path (already upper-cased) calls for.
pub open spec fn layout_of_path(upper_path: Seq<u8>) -> ReportLayout {
    if contains_run(upper_path, bthenum()) || contains_run(upper_path, bluetooth_word()) {
        ReportLayout::Bluetooth
    } else {
        ReportLayout::Usb
    }
}

fn find_run(s: &[u8], pat: &[u8]) -> (found: bool)
    requires
        pat@.len() > 0,
    ensures
        found == contains_run(s@, pat@),
{
    if pat.len() > s.len() {
        assert(!contains_run(s@, pat@));
        return false;
    }
    let last = s.len() - pat.len();
    let mut i: usize = 0;
    while i <= last
        invariant
            last == s@.len() - pat@.len(),
            pat@.len() <= s@.len(),
            pat@.len() > 0,
            s@.len() == s.len(),
            0 <= i <= last + 1,
            forall|k: int| 0 <= k < i ==> #[trigger] s@.subrange(k, k + pat@.len()) != pat@,
        decreases last + 1 - i,
    {
        let mut j: usize = 0;
        let mut same = true;
        while j < pat.len()
            invariant
                i <= last,
                last == s@.len() - pat@.len(),
                pat@.len() <= s@.len(),
                s@.len() == s.len(),
                pat@.len() == pat.len(),
                0 <= j <= pat@.len(),
                same == (forall|m: int| 0 <= m < j ==> s@[i + m] == pat@[m]),
            decreases pat@.len() - j,
        {
            if s[i + j] != pat[j] {
                same = false;
            }
            j = j + 1;
        }
        if same {
            assert(s@.subrange(i as int, i + pat@.len()) =~= pat@);
            return true;
        }
        proof {
            if s@.subrange(i as int, i + pat@.len()) == pat@ {
                assert forall|m: int| 0 <= m < pat@.len() implies s@[i + m] == pat@[m] by {
                    assert(s@.subrange(i as int, i + pat@.len())[m] == s@[i + m]);
                }
            }
        }
        i = i + 1;
    }
    false
}

/// Picks the report layout from a device path that has been upper-cased: Bluetooth when it
/// names the Bluetooth enumerator or contains "BLUETOOTH", USB otherwise.
pub fn layout_for_path(upper_path: &[u8]) -> (layout: ReportLayout)
    ensures
        layout == layout_of_path(upper_path@),
{
    let a: [u8; 7] = [66u8, 84, 72, 69, 78, 85, 77];
    let b: [u8; 9] = [66u8, 76, 85, 69, 84, 79, 79, 84, 72];
    assert(a@ =~= bthenum());
    assert(b@ =~= bluetooth_word());
    if find_run(upper_path, a.as_slice()) || find_run(upper_path, b.as_slice()) {
        ReportLayout::Bluetooth
    } else {
        ReportLayout::Usb
    }
}

// ------------------------------------------------------------------
// Reconnection
// ------------------------------------------------------------------

/// What a connection attempt should do.
#[derive(Debug, Clone, Copy, PartialEq, Eq, Structural)]
pub enum ConnectStep {
    /// A device is already attached.
    Connected,
    /// The last attempt was too recent; try later.
    Wait,
    /// Record the attempt time and look for a device.
    Attempt,
}

/// The connection decision: nothing to do while connected, otherwise an attempt at most once
/// per `interval_ns`.
pub open spec fn connect_step_spec(connected: bool, since_last_attempt_ns: Option<u128>, interval_ns: u128) -> ConnectStep {
    if connected {
        ConnectStep::Connected
    } else {
        match since_last_attempt_ns {
            Some(elapsed) => if elapsed < interval_ns {
                ConnectStep::Wait
            } else {
                ConnectStep::Attempt
            },
            None => ConnectStep::Attempt,
        }
    }
}

/// Decides whether to look for a controller now.
pub fn connect_step(connected: bool, since_last_attempt_ns: Option<u128>, interval_ns: u128) -> (step: ConnectStep)
    ensures
        step == connect_step_spec(connected, since_last_attempt_ns, interval_ns),
{
    if connected {
        return ConnectStep::Connected;
    }
    if let Some(elapsed) = since_last_attempt_ns {
        if elapsed < interval_ns {
            return ConnectStep::Wait;
        }
    }
    ConnectStep::Attempt
}

// ------------------------------------------------------------------
// Laws
// ------------------------------------------------------------------

/// Law: the shape of an output report. It has the layout's length and report id, enables both
/// triggers in the flags byte, and each trigger's mode code leads its block. A Bluetooth report
/// carries the Bluetooth tag byte and ends with the CRC-32 of its first 74 bytes, little-endian.
pub proof fn lemma_report_shape(layout: ReportLayout, left: TriggerMode, right: TriggerMode)
    ensures
        ({
            let report = output_report(layout, left, right);
            &&& report.len() == report_size(layout)
            &&& report[0] == report_id(layout)
            &&& report[flags_offset(layout)] == 0x0C
            &&& report[right_offset(layout)] == mode_code(right)
            &&& report[left_offset(layout)] == mode_code(left)
            &&& report.subrange(right_offset(layout), right_offset(layout) + 11) == mode_bytes(right)
            &&& report.subrange(left_offset(layout), left_offset(layout) + 11) == mode_bytes(left)
            &&& is_bluetooth(layout) ==> {
                &&& report[1] == 0x02
                &&& report.subrange(74, 78) == le32(crc32_ieee(report.subrange(0, 74)))
            }
        }),
{
    let body = report_body(layout, left, right);
    let report = output_report(layout, left, right);
    let r = right_offset(layout);
    let l = left_offset(layout);
    assert(report.subrange(r, r + 11) =~= mode_bytes(right));
    assert(report.subrange(l, l + 11) =~= mode_bytes(left));
    if is_bluetooth(layout) {
        assert(report.subrange(0, 74) =~= body.subrange(0, 74));
        assert(report.subrange(74, 78) =~= le32(crc32_ieee(body.subrange(0, 74))));
    }
}

} // verus!
