//! The binary wire protocol spoken to a matrix module.
//!
//! Every request sent to the firmware is the magic bytes `0x32 0xAC`, a
//! command byte, and the command's parameters; some commands answer with a
//! fixed-size response.  The functions here build those requests byte for
//! byte as [`DeviceCall`] values; the surrounding program writes the request
//! to the serial port and reads back exactly `response_size` bytes.

use vstd::prelude::*;
use vstd::slice::{slice_subrange, slice_to_vec};

verus! {

/// A failure while opening a configured serial port.
#[derive(Debug)]
pub enum MatrixError {
    /// The named port is not one of the supported LED matrix modules.
    InvalidPort(String),
}

/// One of the two physical matrix endpoints.
#[derive(Debug, Clone, Copy, PartialEq, Eq, Structural)]
pub enum Side {
    Left,
    Right,
}

/// One fully built device request together with the number of response
/// bytes the firmware will answer with (zero for most commands).
#[derive(Debug, Clone)]
pub struct DeviceCall {
    pub request: Vec<u8>,
    pub response_size: usize,
}

/// The bytes of a request: magic, command byte, parameters.
pub open spec fn spec_request(cmd: u8, params: Seq<u8>) -> Seq<u8> {
    seq![0x32u8, 0xACu8, cmd] + params
}

/// Whether `c` is the request for command `cmd` with parameters `params`
/// and a `rsize`-byte response.
pub open spec fn call_is(c: DeviceCall, cmd: u8, params: Seq<u8>, rsize: int) -> bool {
    c.request@ == spec_request(cmd, params) && c.response_size == rsize
}

/// A device call described at the specification level, used to pin down
/// entire sequences of calls.
pub struct SpecCall {
    pub side: Side,
    pub cmd: u8,
    pub params: Seq<u8>,
    pub rsize: int,
}

/// Whether the built calls `cs` are, element for element and in order,
/// the calls described by `es`.
pub open spec fn calls_match(cs: Seq<(Side, DeviceCall)>, es: Seq<SpecCall>) -> bool {
    cs.len() == es.len() && forall|i: int|
        0 <= i < cs.len() ==> (#[trigger] cs[i]).0 == es[i].side && call_is(
            cs[i].1,
            es[i].cmd,
            es[i].params,
            es[i].rsize,
        )
}

/// A sequence holding one described call when `cond` holds and nothing
/// otherwise.
pub open spec fn opt_call(cond: bool, side: Side, cmd: u8, params: Seq<u8>, rsize: int) -> Seq<
    SpecCall,
> {
    if cond {
        seq![SpecCall { side, cmd, params, rsize }]
    } else {
        Seq::empty()
    }
}

/// The parameters of the stage-column request for column `col` of `frame`:
/// the column index followed by that column's 34 grayscale values.
pub open spec fn stage_params(frame: Seq<u8>, col: int) -> Seq<u8> {
    seq![col as u8] + frame.subrange(34 * col, 34 * col + 34)
}

/// Whether the device calls in `cs` render the 306-byte frame on one
/// device: its nine columns staged in ascending order, then one flush.
pub open spec fn single_render_calls(cs: Seq<DeviceCall>, frame: Seq<u8>) -> bool {
    &&& cs.len() == 10
    &&& forall|i: int| 0 <= i < 9 ==> call_is(#[trigger] cs[i], 0x07, stage_params(frame, i), 0)
    &&& call_is(cs[9], 0x08, Seq::empty(), 0)
}

/// The calls that render a 612-byte paired frame: all eighteen columns
/// staged left to right (wrapping onto the right device at column nine),
/// then one flush per device.
pub open spec fn pair_render_calls(frame: Seq<u8>) -> Seq<SpecCall> {
    Seq::new(
        20,
        |i: int|
            if i < 9 {
                SpecCall {
                    side: Side::Left,
                    cmd: 0x07,
                    params: stage_params(frame, i),
                    rsize: 0,
                }
            } else if i < 18 {
                SpecCall {
                    side: Side::Right,
                    cmd: 0x07,
                    params: seq![(i - 9) as u8] + frame.subrange(34 * i, 34 * i + 34),
                    rsize: 0,
                }
            } else if i == 18 {
                SpecCall { side: Side::Left, cmd: 0x08, params: Seq::empty(), rsize: 0 }
            } else {
                SpecCall { side: Side::Right, cmd: 0x08, params: Seq::empty(), rsize: 0 }
            },
    )
}

/// Whether a port with this USB vendor and product id is accepted as one
/// of the supported matrix modules.
pub fn is_matrix_device(vid: u16, pid: u16) -> (r: bool)
    ensures
        r == (vid == 0x32AC || pid == 0x20 || pid == 0x1F),
{
    vid == 0x32AC || pid == 0x20 || pid == 0x1F
}

/// Builds the request for `command` with the given parameters and expected
/// response size.
pub fn send_command(command: u8, parameters: Option<Vec<u8>>, response_size: usize) -> (c:
    DeviceCall)
    ensures
        call_is(
            c,
            command,
            (match parameters {
                Some(p) => p@,
                None => Seq::<u8>::empty(),
            }),
            response_size as int,
        ),
{
    let mut request: Vec<u8> = Vec::new();
    request.push(0x32);
    request.push(0xAC);
    request.push(command);
    assert(request@ =~= seq![0x32u8, 0xACu8, command]);
    match parameters {
        Some(mut p) => {
            request.append(&mut p);
        },
        None => {
            assert(request@ =~= spec_request(command, Seq::<u8>::empty()));
        },
    }
    DeviceCall { request, response_size }
}

/// The request that sets the global LED brightness.
pub fn set_brightness(brightness: u8) -> (c: DeviceCall)
    ensures
        call_is(c, 0x00, seq![brightness], 0),
{
    let mut params: Vec<u8> = Vec::new();
    params.push(brightness);
    assert(params@ =~= seq![brightness]);
    send_command(0x00, Some(params), 0)
}

/// The request that queries the global LED brightness; the firmware
/// answers with one byte.
pub fn get_brightness() -> (c: DeviceCall)
    ensures
        call_is(c, 0x00, Seq::empty(), 1),
{
    send_command(0x00, None, 1)
}

/// The request that selects the built-in firmware pattern `pattern`, with
/// its optional one-byte parameter.
pub fn pattern(pattern_id: u8, parameters: Option<u8>) -> (c: DeviceCall)
    ensures
        call_is(
            c,
            0x01,
            (match parameters {
                Some(p) => seq![pattern_id, p],
                None => seq![pattern_id],
            }),
            0,
        ),
{
    let mut params: Vec<u8> = Vec::new();
    params.push(pattern_id);
    match parameters {
        Some(p) => {
            params.push(p);
            assert(params@ =~= seq![pattern_id, p]);
        },
        None => {
            assert(params@ =~= seq![pattern_id]);
        },
    }
    send_command(0x01, Some(params), 0)
}

/// The request that drops the firmware into its bootloader.
pub fn bootloader() -> (c: DeviceCall)
    ensures
        call_is(c, 0x02, Seq::empty(), 0),
{
    send_command(0x02, None, 0)
}

/// The request that puts the matrix to sleep or wakes it.
pub fn set_sleep(sleep: bool) -> (c: DeviceCall)
    ensures
        call_is(c, 0x03, seq![if sleep { 1u8 } else { 0u8 }], 0),
{
    let mut params: Vec<u8> = Vec::new();
    params.push(if sleep { 1 } else { 0 });
    assert(params@ =~= seq![if sleep { 1u8 } else { 0u8 }]);
    send_command(0x03, Some(params), 0)
}

/// The request that turns vertical scrolling on or off.
pub fn set_scroll(scroll: bool) -> (c: DeviceCall)
    ensures
        call_is(c, 0x04, seq![if scroll { 1u8 } else { 0u8 }], 0),
{
    let mut params: Vec<u8> = Vec::new();
    params.push(if scroll { 1 } else { 0 });
    assert(params@ =~= seq![if scroll { 1u8 } else { 0u8 }]);
    send_command(0x04, Some(params), 0)
}

/// The request that queries whether the matrix is scrolling; the firmware
/// answers with one byte, zero meaning no.
pub fn is_scrolling() -> (c: DeviceCall)
    ensures
        call_is(c, 0x04, Seq::empty(), 1),
{
    send_command(0x04, None, 1)
}

/// The request that makes the firmware panic, provided for completeness.
pub fn crash() -> (c: DeviceCall)
    ensures
        call_is(c, 0x05, Seq::empty(), 0),
{
    send_command(0x05, None, 0)
}

/// The request that draws a monochrome frame from a 39-byte bitmap.
pub fn draw_bw(bitmap: &Vec<u8>) -> (c: DeviceCall)
    requires
        bitmap@.len() == 39,
    ensures
        call_is(c, 0x06, bitmap@, 0),
{
    let params: Vec<u8> = slice_to_vec(bitmap.as_slice());
    send_command(0x06, Some(params), 0)
}

/// The request that stages one column of 34 grayscale values without yet
/// displaying it.
pub fn stage_column(column_number: u8, column_vals: &Vec<u8>) -> (c: DeviceCall)
    requires
        column_number < 9,
        column_vals@.len() == 34,
    ensures
        call_is(c, 0x07, seq![column_number] + column_vals@, 0),
{
    let mut params: Vec<u8> = Vec::new();
    params.push(column_number);
    let mut vals: Vec<u8> = slice_to_vec(column_vals.as_slice());
    params.append(&mut vals);
    assert(params@ =~= seq![column_number] + column_vals@);
    send_command(0x07, Some(params), 0)
}

/// The request that commits all staged columns to the LEDs.
pub fn flush_columns() -> (c: DeviceCall)
    ensures
        call_is(c, 0x08, Seq::empty(), 0),
{
    send_command(0x08, None, 0)
}

/// The request that queries the firmware version; the firmware answers
/// with three bytes.
pub fn version() -> (c: DeviceCall)
    ensures
        call_is(c, 0x20, Seq::empty(), 3),
{
    send_command(0x20, None, 3)
}

/// The calls that display a percentage with the built-in pattern.
pub fn render_percentage(percentage: u8) -> (c: DeviceCall)
    ensures
        call_is(c, 0x01, seq![0x00u8, percentage], 0),
{
    pattern(0x00, Some(percentage))
}

/// The calls that display the built-in gradient pattern.
pub fn render_gradient() -> (c: DeviceCall)
    ensures
        call_is(c, 0x01, seq![0x01u8], 0),
{
    pattern(0x01, None)
}

/// The calls that display the built-in double-gradient pattern.
pub fn render_double_gradient() -> (c: DeviceCall)
    ensures
        call_is(c, 0x01, seq![0x02u8], 0),
{
    pattern(0x02, None)
}

/// The calls that display the text "LOTUS" horizontally.
pub fn render_lotus_horizontal() -> (c: DeviceCall)
    ensures
        call_is(c, 0x01, seq![0x03u8], 0),
{
    pattern(0x03, None)
}

/// The calls that display the built-in zigzag pattern.
pub fn render_zigzag() -> (c: DeviceCall)
    ensures
        call_is(c, 0x01, seq![0x04u8], 0),
{
    pattern(0x04, None)
}

/// The calls that turn every LED on at full brightness.
pub fn render_fullbright() -> (c: DeviceCall)
    ensures
        call_is(c, 0x01, seq![0x05u8], 0),
{
    pattern(0x05, None)
}

/// The calls that display the text "PANIC" vertically.
pub fn render_panic() -> (c: DeviceCall)
    ensures
        call_is(c, 0x01, seq![0x06u8], 0),
{
    pattern(0x06, None)
}

/// The calls that display the text "LOTUS" vertically.
pub fn render_lotus_vertical() -> (c: DeviceCall)
    ensures
        call_is(c, 0x01, seq![0x07u8], 0),
{
    pattern(0x07, None)
}

/// Decomposes a full 306-byte single-device frame into its device calls:
/// the nine 34-value columns staged in ascending order, then one flush.
pub fn render_single(frame: &Vec<u8>) -> (calls: Vec<DeviceCall>)
    requires
        frame@.len() == 306,
    ensures
        single_render_calls(calls@, frame@),
{
    let mut calls: Vec<DeviceCall> = Vec::new();
    let mut col: u8 = 0;
    while col < 9
        invariant
            col <= 9,
            frame@.len() == 306,
            calls@.len() == col,
            forall|i: int|
                0 <= i < col ==> call_is(#[trigger] calls@[i], 0x07, stage_params(frame@, i), 0),
        decreases 9 - col,
    {
        let base: usize = 34 * (col as usize);
        let column: Vec<u8> = slice_to_vec(slice_subrange(frame.as_slice(), base, base + 34));
        calls.push(stage_column(col, &column));
        col = col + 1;
    }
    calls.push(flush_columns());
    calls
}

/// Decomposes a full 612-byte paired frame into its device calls: eighteen
/// columns staged left to right, wrapping onto the right device at column
/// nine, then one flush per device.
pub fn render_pair(frame: &Vec<u8>) -> (calls: Vec<(Side, DeviceCall)>)
    requires
        frame@.len() == 612,
    ensures
        calls_match(calls@, pair_render_calls(frame@)),
{
    let mut calls: Vec<(Side, DeviceCall)> = Vec::new();
    let mut col: u8 = 0;
    while col < 18
        invariant
            col <= 18,
            frame@.len() == 612,
            calls@.len() == col,
            forall|i: int|
                0 <= i < col ==> (#[trigger] calls@[i]).0 == pair_render_calls(frame@)[i].side
                    && call_is(
                    calls@[i].1,
                    pair_render_calls(frame@)[i].cmd,
                    pair_render_calls(frame@)[i].params,
                    pair_render_calls(frame@)[i].rsize,
                ),
        decreases 18 - col,
    {
        let base: usize = 34 * (col as usize);
        let column: Vec<u8> = slice_to_vec(slice_subrange(frame.as_slice(), base, base + 34));
        if col < 9 {
            calls.push((Side::Left, stage_column(col, &column)));
        } else {
            calls.push((Side::Right, stage_column(col - 9, &column)));
        }
        col = col + 1;
    }
    calls.push((Side::Left, flush_columns()));
    calls.push((Side::Right, flush_columns()));
    assert(calls@[18].0 == Side::Left && calls@[19].0 == Side::Right);
    calls
}

} // verus!
