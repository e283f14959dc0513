//! The command dispatcher and the animation lifecycle state.
//!
//! [`HandlerData`] is the single shared record the daemon guards with one
//! mutex: the two optional device handles and one optional cancellation
//! token per animation target.  [`handler`] maps one validated command to a
//! [`Dispatch`]: the exact device calls to perform, the animations to
//! start, the warnings to log, and (for sleep queries) the response itself.
//! The surrounding program performs the serial I/O, spawns one task per
//! started animation, and drives each task with [`anim_step`], which
//! re-checks the task's own token before every frame so that preemption
//! takes effect at the next frame boundary.

use crate::config::Matrix;
use crate::ipc::{IpcCommand, IpcResponse};
use crate::matrix::{
    call_is, calls_match, opt_call, pair_render_calls, stage_params, DeviceCall, Side, SpecCall,
};
use vstd::prelude::*;

verus! {

/// An animation target: one side, or both sides driven as a pair.
#[derive(Debug, Clone, Copy, PartialEq, Eq, Structural)]
pub enum Target {
    Left,
    Right,
    Pair,
}

/// A warning recorded when a command names a side that is not configured;
/// the command is a no-op for that side, never an error.
#[derive(Debug, Clone, Copy, PartialEq, Eq, Structural)]
pub enum Warning {
    MissingLeft,
    MissingRight,
    MissingPair,
}

/// Which device query a query-class command performs.
#[derive(Debug, Clone, Copy, PartialEq, Eq, Structural)]
pub enum QueryKind {
    Brightness,
    Scroll,
    Version,
}

/// The device reads a query-class command asks for: one optional call per
/// side, present exactly for the sides that are requested and configured.
/// The raw response bytes are turned into the reply by [`build_response`].
#[derive(Debug)]
pub struct Query {
    pub kind: QueryKind,
    pub left: Option<DeviceCall>,
    pub right: Option<DeviceCall>,
}

/// An animation to start: the target, the cancellation token the new task
/// must check itself against, and the frame sequence to play once.
#[derive(Debug)]
pub struct AnimStart {
    pub target: Target,
    pub token: u64,
    pub frames: Vec<(Vec<u8>, u64)>,
}

/// Everything a dispatched command asks the surrounding program to do:
/// one-shot device calls in order, an optional query plan, animations to
/// start, and warnings to log.
#[derive(Debug)]
pub struct Dispatch {
    pub calls: Vec<(Side, DeviceCall)>,
    pub query: Option<Query>,
    pub anims: Vec<AnimStart>,
    pub warnings: Vec<Warning>,
}

/// The shared state of the daemon: the two optional device handles plus
/// one optional live cancellation token per animation target, and the
/// counter that keeps new tokens distinct from every token handed out
/// before.
#[derive(Debug)]
pub struct HandlerData {
    pub left_port: Option<Matrix>,
    pub right_port: Option<Matrix>,
    pub left_thread: Option<u64>,
    pub right_thread: Option<u64>,
    pub pair_thread: Option<u64>,
    pub next_token: u64,
}

impl HandlerData {
    /// Every live token was drawn from the counter, so a token drawn next
    /// differs from every live one.
    pub open spec fn wf(self) -> bool {
        &&& (self.left_thread matches Some(t) ==> t < self.next_token)
        &&& (self.right_thread matches Some(t) ==> t < self.next_token)
        &&& (self.pair_thread matches Some(t) ==> t < self.next_token)
    }

    /// Whether `token` is the live token of `target`.
    pub open spec fn token_live(self, target: Target, token: u64) -> bool {
        match target {
            Target::Left => self.left_thread == Some(token),
            Target::Right => self.right_thread == Some(token),
            Target::Pair => self.pair_thread == Some(token),
        }
    }

    /// Creates the daemon state for the configured ports, with no
    /// animation running.
    pub fn new(left_port: Option<Matrix>, right_port: Option<Matrix>) -> (h: HandlerData)
        ensures
            h.left_port == left_port,
            h.right_port == right_port,
            h.left_thread is None,
            h.right_thread is None,
            h.pair_thread is None,
            h.next_token == 0,
            h.wf(),
    {
        HandlerData {
            left_port,
            right_port,
            left_thread: None,
            right_thread: None,
            pair_thread: None,
            next_token: 0,
        }
    }

    /// Both port slots, for callers that inspect the configuration.
    pub fn get_ports(&self) -> (r: (&Option<Matrix>, &Option<Matrix>))
        ensures
            *(r.0) == self.left_port,
            *(r.1) == self.right_port,
    {
        (&self.left_port, &self.right_port)
    }

    /// Invalidates animation tokens: always the pair token, and each
    /// side's token unless that side is asked to stay alive.  Stale tasks
    /// observe the invalidation at their next frame boundary.
    pub fn kill_threads(&mut self, keep_left_alive: bool, keep_right_alive: bool)
        ensures
            final(self).pair_thread is None,
            final(self).left_thread == (if keep_left_alive {
                old(self).left_thread
            } else {
                None::<u64>
            }),
            final(self).right_thread == (if keep_right_alive {
                old(self).right_thread
            } else {
                None::<u64>
            }),
            final(self).left_port == old(self).left_port,
            final(self).right_port == old(self).right_port,
            final(self).next_token == old(self).next_token,
            old(self).wf() ==> final(self).wf(),
    {
        self.pair_thread = None;
        if !keep_left_alive {
            self.left_thread = None;
        }
        if !keep_right_alive {
            self.right_thread = None;
        }
    }

    /// Draws a fresh token and makes it the live left token.
    pub fn start_left_thread(&mut self) -> (token: u64)
        requires
            old(self).next_token < u64::MAX,
        ensures
            token == old(self).next_token,
            final(self).left_thread == Some(token),
            final(self).right_thread == old(self).right_thread,
            final(self).pair_thread == old(self).pair_thread,
            final(self).left_port == old(self).left_port,
            final(self).right_port == old(self).right_port,
            final(self).next_token == old(self).next_token + 1,
            old(self).wf() ==> final(self).wf(),
    {
        let token = self.next_token;
        self.next_token = self.next_token + 1;
        self.left_thread = Some(token);
        token
    }

    /// Draws a fresh token and makes it the live right token.
    pub fn start_right_thread(&mut self) -> (token: u64)
        requires
            old(self).next_token < u64::MAX,
        ensures
            token == old(self).next_token,
            final(self).right_thread == Some(token),
            final(self).left_thread == old(self).left_thread,
            final(self).pair_thread == old(self).pair_thread,
            final(self).left_port == old(self).left_port,
            final(self).right_port == old(self).right_port,
            final(self).next_token == old(self).next_token + 1,
            old(self).wf() ==> final(self).wf(),
    {
        let token = self.next_token;
        self.next_token = self.next_token + 1;
        self.right_thread = Some(token);
        token
    }

    /// Draws a fresh token and makes it the live pair token.
    pub fn start_pair_thread(&mut self) -> (token: u64)
        requires
            old(self).next_token < u64::MAX,
        ensures
            token == old(self).next_token,
            final(self).pair_thread == Some(token),
            final(self).left_thread == old(self).left_thread,
            final(self).right_thread == old(self).right_thread,
            final(self).left_port == old(self).left_port,
            final(self).right_port == old(self).right_port,
            final(self).next_token == old(self).next_token + 1,
            old(self).wf() ==> final(self).wf(),
    {
        let token = self.next_token;
        self.next_token = self.next_token + 1;
        self.pair_thread = Some(token);
        token
    }

    /// Whether a left animation token is live.
    pub fn is_left_animated(&self) -> (r: bool)
        ensures
            r == (self.left_thread is Some),
    {
        self.left_thread.is_some()
    }

    /// Whether a right animation token is live.
    pub fn is_right_animated(&self) -> (r: bool)
        ensures
            r == (self.right_thread is Some),
    {
        self.right_thread.is_some()
    }

    /// Whether a pair animation token is live.
    pub fn is_pair_animated(&self) -> (r: bool)
        ensures
            r == (self.pair_thread is Some),
    {
        self.pair_thread.is_some()
    }
}

/// The port slot with its tracked `sleeping` flag forced to `s`; an
/// unconfigured slot stays unconfigured.
pub open spec fn with_sleep(p: Option<Matrix>, s: bool) -> Option<Matrix> {
    match p {
        Some(m) => Some(Matrix { sleeping: s, ..m }),
        None => None,
    }
}

/// The port slot woken up: any device traffic implicitly wakes the
/// device, so the tracked flag is cleared.
pub open spec fn wake(p: Option<Matrix>) -> Option<Matrix> {
    with_sleep(p, false)
}

/// The tracked sleeping flag of a port slot, if the slot is configured.
pub open spec fn sleep_flag(p: Option<Matrix>) -> Option<bool> {
    match p {
        Some(m) => Some(m.sleeping),
        None => None,
    }
}

/// The warnings a command leaves when it asked for the left or right side
/// and found it unconfigured, in that order.
pub open spec fn warn_seq(wl: bool, wr: bool) -> Seq<Warning> {
    (if wl {
        seq![Warning::MissingLeft]
    } else {
        Seq::<Warning>::empty()
    }) + (if wr {
        seq![Warning::MissingRight]
    } else {
        Seq::<Warning>::empty()
    })
}

/// Sets the slot's tracked sleeping flag, reporting whether the slot is
/// configured at all.
fn set_port_sleep(p: &mut Option<Matrix>, s: bool) -> (present: bool)
    ensures
        *final(p) == with_sleep(*old(p), s),
        present == (*old(p) is Some),
{
    let cur = p.take();
    match cur {
        Some(m) => {
            *p = Some(Matrix { port: m.port, baudrate: m.baudrate, sleeping: s });
            true
        },
        None => false,
    }
}

/// Clears the slot's tracked sleeping flag, reporting whether the slot is
/// configured at all.
fn wake_port(p: &mut Option<Matrix>) -> (present: bool)
    ensures
        *final(p) == wake(*old(p)),
        present == (*old(p) is Some),
{
    set_port_sleep(p, false)
}

/// The calls that render a 306-byte frame on the device of `side`: its
/// nine columns staged in ascending order, then one flush.
pub open spec fn side_render_calls(side: Side, frame: Seq<u8>) -> Seq<SpecCall> {
    Seq::new(
        10,
        |i: int|
            if i < 9 {
                SpecCall { side, cmd: 0x07, params: stage_params(frame, i), rsize: 0 }
            } else {
                SpecCall { side, cmd: 0x08, params: Seq::empty(), rsize: 0 }
            },
    )
}

/// Builds the render of a 306-byte frame, tagged for the device of
/// `side`.
fn render_single_on(side: Side, frame: &Vec<u8>) -> (out: Vec<(Side, DeviceCall)>)
    requires
        frame@.len() == 306,
    ensures
        calls_match(out@, side_render_calls(side, frame@)),
{
    let mut out: Vec<(Side, DeviceCall)> = Vec::new();
    let mut col: u8 = 0;
    while col < 9
        invariant
            col <= 9,
            frame@.len() == 306,
            out@.len() == col,
            forall|i: int|
                0 <= i < col ==> (#[trigger] out@[i]).0 == side && call_is(
                    out@[i].1,
                    0x07,
                    stage_params(frame@, i),
                    0,
                ),
        decreases 9 - col,
    {
        let base: usize = 34 * (col as usize);
        let column: Vec<u8> = vstd::slice::slice_to_vec(
            vstd::slice::slice_subrange(frame.as_slice(), base, base + 34),
        );
        out.push((side, crate::matrix::stage_column(col, &column)));
        col = col + 1;
    }
    out.push((side, crate::matrix::flush_columns()));
    out
}

/// Whether the target's device slots are all configured.
pub open spec fn anim_ports_ready(d: HandlerData, target: Target) -> bool {
    match target {
        Target::Left => d.left_port is Some,
        Target::Right => d.right_port is Some,
        Target::Pair => d.left_port is Some && d.right_port is Some,
    }
}

/// The state with the target's token slot cleared.
pub open spec fn clear_token(d: HandlerData, target: Target) -> HandlerData {
    match target {
        Target::Left => HandlerData { left_thread: None, ..d },
        Target::Right => HandlerData { right_thread: None, ..d },
        Target::Pair => HandlerData { pair_thread: None, ..d },
    }
}

/// The device calls of one animation frame for the target.
pub open spec fn anim_frame_calls(target: Target, frame: Seq<u8>) -> Seq<SpecCall> {
    match target {
        Target::Left => side_render_calls(Side::Left, frame),
        Target::Right => side_render_calls(Side::Right, frame),
        Target::Pair => pair_render_calls(frame),
    }
}

/// One frame boundary of an animation task.  The task consults its own
/// token first: if the token is stale the task stops at once, touching
/// nothing.  If the token is live but the devices it needs are gone, the
/// task invalidates its own token and stops.  Otherwise it gets the exact
/// calls that render this frame, and the state is untouched.
pub fn anim_step(data: &mut HandlerData, target: Target, token: u64, frame: &Vec<u8>) -> (r:
    Option<Vec<(Side, DeviceCall)>>)
    requires
        target is Pair ==> frame@.len() == 612,
        !(target is Pair) ==> frame@.len() == 306,
    ensures
        old(data).token_live(target, token) && anim_ports_ready(*old(data), target)
            ==> (*final(data) == *old(data) && (r matches Some(cs) && calls_match(
            cs@,
            anim_frame_calls(target, frame@),
        ))),
        old(data).token_live(target, token) && !anim_ports_ready(*old(data), target)
            ==> (*final(data) == clear_token(*old(data), target) && r is None),
        !old(data).token_live(target, token) ==> (*final(data) == *old(data) && r is None),
{
    let live: bool = match target {
        Target::Left => match data.left_thread {
            Some(t) => t == token,
            None => false,
        },
        Target::Right => match data.right_thread {
            Some(t) => t == token,
            None => false,
        },
        Target::Pair => match data.pair_thread {
            Some(t) => t == token,
            None => false,
        },
    };
    if !live {
        return None;
    }
    match target {
        Target::Left => {
            if data.left_port.is_some() {
                Some(render_single_on(Side::Left, frame))
            } else {
                data.left_thread = None;
                None
            }
        },
        Target::Right => {
            if data.right_port.is_some() {
                Some(render_single_on(Side::Right, frame))
            } else {
                data.right_thread = None;
                None
            }
        },
        Target::Pair => {
            if data.left_port.is_some() && data.right_port.is_some() {
                Some(crate::matrix::render_pair(frame))
            } else {
                data.pair_thread = None;
                None
            }
        },
    }
}

/// Ends an animation task's life, whether it completed naturally or died
/// on a device failure: the task's own token is invalidated if it is
/// still the live one, so that status queries agree the animation ended.
/// A stale token (the task was already preempted) changes nothing.
pub fn anim_finish(data: &mut HandlerData, target: Target, token: u64)
    ensures
        old(data).token_live(target, token) ==> *final(data) == clear_token(*old(data), target),
        !old(data).token_live(target, token) ==> *final(data) == *old(data),
{
    match target {
        Target::Left => {
            if let Some(t) = data.left_thread {
                if t == token {
                    data.left_thread = None;
                }
            }
        },
        Target::Right => {
            if let Some(t) = data.right_thread {
                if t == token {
                    data.right_thread = None;
                }
            }
        },
        Target::Pair => {
            if let Some(t) = data.pair_thread {
                if t == token {
                    data.pair_thread = None;
                }
            }
        },
    }
}

/// Whether the keepalive task should ping the left device: configured,
/// not sleeping, and not busy with any animation that touches it.
pub open spec fn ping_left(d: HandlerData) -> bool {
    d.pair_thread is None && d.left_thread is None && (d.left_port matches Some(m) && !m.sleeping)
}

/// Whether the keepalive task should ping the right device.
pub open spec fn ping_right(d: HandlerData) -> bool {
    d.pair_thread is None && d.right_thread is None && (d.right_port matches Some(m) && !m.sleeping)
}

/// The periodic keepalive: a read-only version query for every
/// configured, non-sleeping, non-animating device, so the firmware's
/// connection does not time out and the display is never disturbed.
pub fn keepalive(data: &HandlerData) -> (calls: Vec<(Side, DeviceCall)>)
    ensures
        calls_match(
            calls@,
            opt_call(ping_left(*data), Side::Left, 0x20, Seq::empty(), 3) + opt_call(
                ping_right(*data),
                Side::Right,
                0x20,
                Seq::empty(),
                3,
            ),
        ),
{
    let mut calls: Vec<(Side, DeviceCall)> = Vec::new();
    if !data.is_pair_animated() {
        if !data.is_left_animated() {
            match &data.left_port {
                Some(m) => {
                    if !m.sleeping {
                        calls.push((Side::Left, crate::matrix::version()));
                    }
                },
                None => {},
            }
        }
        if !data.is_right_animated() {
            match &data.right_port {
                Some(m) => {
                    if !m.sleeping {
                        calls.push((Side::Right, crate::matrix::version()));
                    }
                },
                None => {},
            }
        }
    }
    calls
}

/// Whether `b` is the first byte of the response, when one was read.
pub open spec fn opt_first_byte(v: Option<Vec<u8>>, b: Option<u8>) -> bool {
    match v {
        Some(bytes) => b == Some(bytes@[0]),
        None => b is None,
    }
}

/// Whether `b` reports the response's first byte as a flag, zero meaning
/// false.
pub open spec fn opt_nonzero(v: Option<Vec<u8>>, b: Option<bool>) -> bool {
    match v {
        Some(bytes) => b == Some(bytes@[0] != 0),
        None => b is None,
    }
}

/// Builds the reply of a query-class command from the raw bytes each
/// queried device answered with: the brightness byte, the scroll flag
/// (non-zero meaning scrolling), or the raw three version bytes.
pub fn build_response(kind: QueryKind, left: Option<Vec<u8>>, right: Option<Vec<u8>>) -> (r:
    IpcResponse)
    requires
        kind is Brightness || kind is Scroll ==> ((left matches Some(v) ==> v@.len() >= 1) && (
        right matches Some(v) ==> v@.len() >= 1)),
    ensures
        kind is Brightness ==> (r matches IpcResponse::Brightness(lb, rb) && opt_first_byte(
            left,
            lb,
        ) && opt_first_byte(right, rb)),
        kind is Scroll ==> (r matches IpcResponse::Animated(lb, rb) && opt_nonzero(left, lb)
            && opt_nonzero(right, rb)),
        kind is Version ==> r == IpcResponse::Version(left, right),
{
    match kind {
        QueryKind::Brightness => {
            let lb: Option<u8> = match &left {
                Some(bytes) => Some(bytes[0]),
                None => None,
            };
            let rb: Option<u8> = match &right {
                Some(bytes) => Some(bytes[0]),
                None => None,
            };
            IpcResponse::Brightness(lb, rb)
        },
        QueryKind::Scroll => {
            let lb: Option<bool> = match &left {
                Some(bytes) => Some(bytes[0] != 0),
                None => None,
            };
            let rb: Option<bool> = match &right {
                Some(bytes) => Some(bytes[0] != 0),
                None => None,
            };
            IpcResponse::Animated(lb, rb)
        },
        QueryKind::Version => IpcResponse::Version(left, right),
    }
}

/// The wire command byte each query kind sends.
pub open spec fn kind_cmd(kind: QueryKind) -> u8 {
    match kind {
        QueryKind::Brightness => 0x00,
        QueryKind::Scroll => 0x04,
        QueryKind::Version => 0x20,
    }
}

/// The response size each query kind reads back.
pub open spec fn kind_rsize(kind: QueryKind) -> int {
    match kind {
        QueryKind::Brightness => 1,
        QueryKind::Scroll => 1,
        QueryKind::Version => 3,
    }
}

/// Whether a query plan slot holds the query call exactly when the side
/// is requested and configured.
pub open spec fn opt_query_call(o: Option<DeviceCall>, present: bool, kind: QueryKind) -> bool {
    if present {
        o matches Some(c) && call_is(c, kind_cmd(kind), Seq::empty(), kind_rsize(kind))
    } else {
        o is None
    }
}

/// Whether no animation token changed.
pub open spec fn tokens_same(pre: HandlerData, post: HandlerData) -> bool {
    &&& post.left_thread == pre.left_thread
    &&& post.right_thread == pre.right_thread
    &&& post.pair_thread == pre.pair_thread
    &&& post.next_token == pre.next_token
}

/// Whether the dispatch carries neither a query plan nor animations.
pub open spec fn no_extras(d: Dispatch) -> bool {
    d.query is None && d.anims@.len() == 0
}

/// The calls of a command applied to each requested, configured side in
/// left-then-right order, all with command byte `cmd` and no response.
pub open spec fn two_side_calls(
    lpresent: bool,
    lparams: Seq<u8>,
    rpresent: bool,
    rparams: Seq<u8>,
    cmd: u8,
) -> Seq<SpecCall> {
    opt_call(lpresent, Side::Left, cmd, lparams, 0) + opt_call(
        rpresent,
        Side::Right,
        cmd,
        rparams,
        0,
    )
}

/// The contract of a query-class command: no preemption, requested
/// configured sides woken (the query is device traffic) and planned, and
/// requested unconfigured sides warned about.
pub open spec fn query_arm(
    pre: HandlerData,
    post: HandlerData,
    d: Dispatch,
    l: bool,
    r: bool,
    kind: QueryKind,
) -> bool {
    &&& post.left_port == (if l {
        wake(pre.left_port)
    } else {
        pre.left_port
    })
    &&& post.right_port == (if r {
        wake(pre.right_port)
    } else {
        pre.right_port
    })
    &&& tokens_same(pre, post)
    &&& (d.query matches Some(q) && q.kind == kind && opt_query_call(
        q.left,
        l && pre.left_port is Some,
        kind,
    ) && opt_query_call(q.right, r && pre.right_port is Some, kind))
    &&& d.calls@.len() == 0
    &&& d.anims@.len() == 0
    &&& d.warnings@ == warn_seq(l && pre.left_port is None, r && pre.right_port is None)
}

/// The contract of a visual command with per-side presence flags: the
/// pair token and every requested side's token are invalidated, requested
/// configured sides are woken and called, the rest warned about.
pub open spec fn flag_visual_arm(
    pre: HandlerData,
    post: HandlerData,
    d: Dispatch,
    l: bool,
    r: bool,
    cmd: u8,
    params: Seq<u8>,
) -> bool {
    &&& post.left_port == (if l {
        wake(pre.left_port)
    } else {
        pre.left_port
    })
    &&& post.right_port == (if r {
        wake(pre.right_port)
    } else {
        pre.right_port
    })
    &&& post.pair_thread is None
    &&& post.left_thread == (if l {
        None::<u64>
    } else {
        pre.left_thread
    })
    &&& post.right_thread == (if r {
        None::<u64>
    } else {
        pre.right_thread
    })
    &&& post.next_token == pre.next_token
    &&& no_extras(d)
    &&& calls_match(
        d.calls@,
        two_side_calls(l && pre.left_port is Some, params, r && pre.right_port is Some, params, cmd),
    )
    &&& d.warnings@ == warn_seq(l && pre.left_port is None, r && pre.right_port is None)
}

/// The token change of a visual command with per-side optional payloads:
/// the pair token dies as soon as either side is addressed, and each
/// addressed side's token dies.
pub open spec fn optkill_tokens(
    pre: HandlerData,
    post: HandlerData,
    lsome: bool,
    rsome: bool,
) -> bool {
    &&& post.pair_thread == (if lsome || rsome {
        None::<u64>
    } else {
        pre.pair_thread
    })
    &&& post.left_thread == (if lsome {
        None::<u64>
    } else {
        pre.left_thread
    })
    &&& post.right_thread == (if rsome {
        None::<u64>
    } else {
        pre.right_thread
    })
    &&& post.next_token == pre.next_token
}

/// The contract of a visual command with per-side optional payloads:
/// per-side preemption, addressed configured sides woken and called with
/// their own parameters, addressed unconfigured sides warned about.
pub open spec fn opt_visual_arm(
    pre: HandlerData,
    post: HandlerData,
    d: Dispatch,
    lsome: bool,
    rsome: bool,
    cmd: u8,
    lparams: Seq<u8>,
    rparams: Seq<u8>,
) -> bool {
    &&& post.left_port == (if lsome {
        wake(pre.left_port)
    } else {
        pre.left_port
    })
    &&& post.right_port == (if rsome {
        wake(pre.right_port)
    } else {
        pre.right_port
    })
    &&& optkill_tokens(pre, post, lsome, rsome)
    &&& no_extras(d)
    &&& calls_match(
        d.calls@,
        two_side_calls(
            lsome && pre.left_port is Some,
            lparams,
            rsome && pre.right_port is Some,
            rparams,
            cmd,
        ),
    )
    &&& d.warnings@ == warn_seq(lsome && pre.left_port is None, rsome && pre.right_port is None)
}

/// Whether this render payload is a synchronous one: exactly one frame.
pub open spec fn is_sync(o: Option<Vec<(Vec<u8>, u64)>>) -> bool {
    o matches Some(s) && s@.len() == 1
}

/// Whether this render payload starts an animation: present with any
/// frame count other than one.
pub open spec fn is_anim(o: Option<Vec<(Vec<u8>, u64)>>) -> bool {
    o matches Some(s) && s@.len() != 1
}

/// The frames of a render payload.
pub open spec fn the_frames(o: Option<Vec<(Vec<u8>, u64)>>) -> Seq<(Vec<u8>, u64)> {
    match o {
        Some(s) => s@,
        None => Seq::empty(),
    }
}

/// The synchronous render calls one side of a render command performs:
/// the full frame decomposition if the payload has one frame and the side
/// is configured, nothing otherwise.
pub open spec fn sync_calls(side: Side, o: Option<Vec<(Vec<u8>, u64)>>, present: bool) -> Seq<
    SpecCall,
> {
    if is_sync(o) && present {
        side_render_calls(side, the_frames(o)[0].0@)
    } else {
        Seq::empty()
    }
}

/// Whether `a` starts an animation on `t` under token `tok` playing
/// exactly `frames`.
pub open spec fn anim_is(a: AnimStart, t: Target, tok: int, frames: Seq<(Vec<u8>, u64)>) -> bool {
    a.target == t && a.token as int == tok && a.frames@ == frames
}

/// The contract of a one- or two-sided render: one-frame payloads are
/// rendered synchronously (never as a task), longer payloads start one
/// animation per side under a fresh token, and every addressed side's
/// previous token, plus the pair token, is invalidated first.
pub open spec fn render_single_arm(
    pre: HandlerData,
    post: HandlerData,
    d: Dispatch,
    lo: Option<Vec<(Vec<u8>, u64)>>,
    ro: Option<Vec<(Vec<u8>, u64)>>,
) -> bool {
    &&& post.left_port == (if lo is Some {
        wake(pre.left_port)
    } else {
        pre.left_port
    })
    &&& post.right_port == (if ro is Some {
        wake(pre.right_port)
    } else {
        pre.right_port
    })
    &&& post.pair_thread == (if lo is Some || ro is Some {
        None::<u64>
    } else {
        pre.pair_thread
    })
    &&& (if is_anim(lo) {
        post.left_thread matches Some(t) && t == pre.next_token
    } else if lo is Some {
        post.left_thread is None
    } else {
        post.left_thread == pre.left_thread
    })
    &&& (if is_anim(ro) {
        post.right_thread matches Some(t) && t as int == pre.next_token as int + (if is_anim(lo) {
            1int
        } else {
            0int
        })
    } else if ro is Some {
        post.right_thread is None
    } else {
        post.right_thread == pre.right_thread
    })
    &&& post.next_token as int == pre.next_token as int + (if is_anim(lo) {
        1int
    } else {
        0int
    }) + (if is_anim(ro) {
        1int
    } else {
        0int
    })
    &&& d.query is None
    &&& calls_match(
        d.calls@,
        sync_calls(Side::Left, lo, pre.left_port is Some) + sync_calls(
            Side::Right,
            ro,
            pre.right_port is Some,
        ),
    )
    &&& d.anims@.len() == (if is_anim(lo) {
        1int
    } else {
        0int
    }) + (if is_anim(ro) {
        1int
    } else {
        0int
    })
    &&& (is_anim(lo) ==> anim_is(d.anims@[0], Target::Left, pre.next_token as int, the_frames(lo)))
    &&& (is_anim(ro) ==> anim_is(
        d.anims@[if is_anim(lo) {
            1int
        } else {
            0int
        }],
        Target::Right,
        pre.next_token as int + (if is_anim(lo) {
            1int
        } else {
            0int
        }),
        the_frames(ro),
    ))
    &&& d.warnings@ == warn_seq(
        is_sync(lo) && pre.left_port is None,
        is_sync(ro) && pre.right_port is None,
    )
}

/// The contract of a paired render: every token is invalidated, a
/// one-frame payload is rendered synchronously across both devices (and
/// is a warned no-op if either side is unconfigured), and a longer
/// payload starts one pair animation under a fresh token.
pub open spec fn render_pair_arm(
    pre: HandlerData,
    post: HandlerData,
    d: Dispatch,
    p: Vec<(Vec<u8>, u64)>,
) -> bool {
    let both = pre.left_port is Some && pre.right_port is Some;
    &&& post.left_port == (if both {
        wake(pre.left_port)
    } else {
        pre.left_port
    })
    &&& post.right_port == (if both {
        wake(pre.right_port)
    } else {
        pre.right_port
    })
    &&& post.left_thread is None
    &&& post.right_thread is None
    &&& (if p@.len() != 1 {
        post.pair_thread matches Some(t) && t == pre.next_token
    } else {
        post.pair_thread is None
    })
    &&& post.next_token as int == pre.next_token as int + (if p@.len() != 1 {
        1int
    } else {
        0int
    })
    &&& d.query is None
    &&& (p@.len() == 1 && both ==> calls_match(d.calls@, pair_render_calls(p@[0].0@)))
    &&& (!(p@.len() == 1 && both) ==> d.calls@.len() == 0)
    &&& d.anims@.len() == (if p@.len() != 1 {
        1int
    } else {
        0int
    })
    &&& (p@.len() != 1 ==> anim_is(d.anims@[0], Target::Pair, pre.next_token as int, p@))
    &&& d.warnings@ == (if p@.len() == 1 && !both {
        seq![Warning::MissingPair]
    } else {
        Seq::<Warning>::empty()
    })
}

/// What dispatching `cmd` does to the shared state and what work it
/// plans, variant by variant.
pub open spec fn dispatch_spec(
    cmd: IpcCommand,
    pre: HandlerData,
    post: HandlerData,
    d: Dispatch,
) -> bool {
    match cmd {
        IpcCommand::GetBrightness(l, r) => query_arm(pre, post, d, l, r, QueryKind::Brightness),
        IpcCommand::GetAnimate(l, r) => query_arm(pre, post, d, l, r, QueryKind::Scroll),
        IpcCommand::Version(l, r) => query_arm(pre, post, d, l, r, QueryKind::Version),
        IpcCommand::GetSleep(l, r) => {
            &&& post == pre
            &&& d.query is None
            &&& d.calls@.len() == 0
            &&& d.anims@.len() == 0
            &&& d.warnings@ == warn_seq(l && pre.left_port is None, r && pre.right_port is None)
        },
        IpcCommand::SetBrightness(lo, ro) => {
            &&& post.left_port == (if lo is Some {
                wake(pre.left_port)
            } else {
                pre.left_port
            })
            &&& post.right_port == (if ro is Some {
                wake(pre.right_port)
            } else {
                pre.right_port
            })
            &&& tokens_same(pre, post)
            &&& no_extras(d)
            &&& calls_match(
                d.calls@,
                two_side_calls(
                    lo is Some && pre.left_port is Some,
                    (match lo {
                        Some(b) => seq![b],
                        None => Seq::<u8>::empty(),
                    }),
                    ro is Some && pre.right_port is Some,
                    (match ro {
                        Some(b) => seq![b],
                        None => Seq::<u8>::empty(),
                    }),
                    0x00,
                ),
            )
            &&& d.warnings@ == warn_seq(
                lo is Some && pre.left_port is None,
                ro is Some && pre.right_port is None,
            )
        },
        IpcCommand::SetSleep(lo, ro) => {
            &&& post.left_port == (match lo {
                Some(s) => with_sleep(pre.left_port, s),
                None => pre.left_port,
            })
            &&& post.right_port == (match ro {
                Some(s) => with_sleep(pre.right_port, s),
                None => pre.right_port,
            })
            &&& optkill_tokens(pre, post, lo is Some, ro is Some)
            &&& no_extras(d)
            &&& calls_match(
                d.calls@,
                two_side_calls(
                    lo is Some && pre.left_port is Some,
                    (match lo {
                        Some(s) => seq![if s {
                            1u8
                        } else {
                            0u8
                        }],
                        None => Seq::<u8>::empty(),
                    }),
                    ro is Some && pre.right_port is Some,
                    (match ro {
                        Some(s) => seq![if s {
                            1u8
                        } else {
                            0u8
                        }],
                        None => Seq::<u8>::empty(),
                    }),
                    0x03,
                ),
            )
            &&& d.warnings@ == warn_seq(
                lo is Some && pre.left_port is None,
                ro is Some && pre.right_port is None,
            )
        },
        IpcCommand::SetAnimate(lo, ro) => opt_visual_arm(
            pre,
            post,
            d,
            lo is Some,
            ro is Some,
            0x04,
            (match lo {
                Some(s) => seq![if s {
                    1u8
                } else {
                    0u8
                }],
                None => Seq::<u8>::empty(),
            }),
            (match ro {
                Some(s) => seq![if s {
                    1u8
                } else {
                    0u8
                }],
                None => Seq::<u8>::empty(),
            }),
        ),
        IpcCommand::PatternPercentage(lo, ro) => opt_visual_arm(
            pre,
            post,
            d,
            lo is Some,
            ro is Some,
            0x01,
            (match lo {
                Some(p) => seq![0x00u8, p],
                None => Seq::<u8>::empty(),
            }),
            (match ro {
                Some(p) => seq![0x00u8, p],
                None => Seq::<u8>::empty(),
            }),
        ),
        IpcCommand::PatternGradient(l, r) => flag_visual_arm(pre, post, d, l, r, 0x01, seq![0x01u8]),
        IpcCommand::PatternDoubleGradient(l, r) => flag_visual_arm(
            pre,
            post,
            d,
            l,
            r,
            0x01,
            seq![0x02u8],
        ),
        IpcCommand::PatternLotusHorizontal(l, r) => flag_visual_arm(
            pre,
            post,
            d,
            l,
            r,
            0x01,
            seq![0x03u8],
        ),
        IpcCommand::PatternLotusVertical(l, r) => flag_visual_arm(
            pre,
            post,
            d,
            l,
            r,
            0x01,
            seq![0x07u8],
        ),
        IpcCommand::PatternZigzag(l, r) => flag_visual_arm(pre, post, d, l, r, 0x01, seq![0x04u8]),
        IpcCommand::PatternFullbright(l, r) => flag_visual_arm(
            pre,
            post,
            d,
            l,
            r,
            0x01,
            seq![0x05u8],
        ),
        IpcCommand::PatternPanic(l, r) => flag_visual_arm(pre, post, d, l, r, 0x01, seq![0x06u8]),
        IpcCommand::Bootloader(l, r) => flag_visual_arm(pre, post, d, l, r, 0x02, Seq::empty()),
        IpcCommand::Crash(l, r) => flag_visual_arm(pre, post, d, l, r, 0x05, Seq::empty()),
        IpcCommand::FlushCols(l, r) => flag_visual_arm(pre, post, d, l, r, 0x08, Seq::empty()),
        IpcCommand::DrawBW(lo, ro) => opt_visual_arm(
            pre,
            post,
            d,
            lo is Some,
            ro is Some,
            0x06,
            (match lo {
                Some(b) => b@,
                None => Seq::<u8>::empty(),
            }),
            (match ro {
                Some(b) => b@,
                None => Seq::<u8>::empty(),
            }),
        ),
        IpcCommand::StageCol(lo, ro) => opt_visual_arm(
            pre,
            post,
            d,
            lo is Some,
            ro is Some,
            0x07,
            (match lo {
                Some((c, v)) => seq![c] + v@,
                None => Seq::<u8>::empty(),
            }),
            (match ro {
                Some((c, v)) => seq![c] + v@,
                None => Seq::<u8>::empty(),
            }),
        ),
        IpcCommand::RenderSingle(lo, ro) => render_single_arm(pre, post, d, lo, ro),
        IpcCommand::RenderPair(p) => render_pair_arm(pre, post, d, p),
    }
}

/// The full contract of one dispatched command: the response is written
/// only for a sleep query, which reads the locally tracked flags and
/// touches nothing else; everything else a command does is described by
/// [`dispatch_spec`].
pub open spec fn handler_spec(
    cmd: IpcCommand,
    pre: HandlerData,
    post: HandlerData,
    resp: Option<IpcResponse>,
    d: Dispatch,
) -> bool {
    &&& (cmd matches IpcCommand::GetSleep(l, r) ==> resp == Some(
        IpcResponse::Sleeping(
            if l {
                sleep_flag(pre.left_port)
            } else {
                None::<bool>
            },
            if r {
                sleep_flag(pre.right_port)
            } else {
                None::<bool>
            },
        ),
    ))
    &&& (!(cmd is GetSleep) ==> resp is None)
    &&& dispatch_spec(cmd, pre, post, d)
}

/// Element-for-element call descriptions concatenate.
proof fn lemma_calls_match_concat(
    a: Seq<(Side, DeviceCall)>,
    b: Seq<(Side, DeviceCall)>,
    ea: Seq<SpecCall>,
    eb: Seq<SpecCall>,
)
    requires
        calls_match(a, ea),
        calls_match(b, eb),
    ensures
        calls_match(a + b, ea + eb),
{
    assert forall|i: int| 0 <= i < (a + b).len() implies ((#[trigger] (a + b)[i]).0 == (ea + eb)[i].side
        && call_is((a + b)[i].1, (ea + eb)[i].cmd, (ea + eb)[i].params, (ea + eb)[i].rsize)) by {
        if i < a.len() {
            assert((a + b)[i] == a[i] && (ea + eb)[i] == ea[i]);
        } else {
            assert((a + b)[i] == b[i - a.len()] && (ea + eb)[i] == eb[i - a.len()]);
        }
    }
}

/// The query call of the given kind.
fn query_call(kind: QueryKind) -> (c: DeviceCall)
    ensures
        call_is(c, kind_cmd(kind), Seq::empty(), kind_rsize(kind)),
{
    match kind {
        QueryKind::Brightness => crate::matrix::get_brightness(),
        QueryKind::Scroll => crate::matrix::is_scrolling(),
        QueryKind::Version => crate::matrix::version(),
    }
}

/// Runs a query-class command: wakes and plans a device read for each
/// requested configured side, warns about requested unconfigured ones.
fn run_query(data: &mut HandlerData, l: bool, r: bool, kind: QueryKind) -> (d: Dispatch)
    ensures
        query_arm(*old(data), *final(data), d, l, r, kind),
{
    let mut warnings: Vec<Warning> = Vec::new();
    let lq: Option<DeviceCall> = if l {
        if wake_port(&mut data.left_port) {
            Some(query_call(kind))
        } else {
            warnings.push(Warning::MissingLeft);
            None
        }
    } else {
        None
    };
    let rq: Option<DeviceCall> = if r {
        if wake_port(&mut data.right_port) {
            Some(query_call(kind))
        } else {
            warnings.push(Warning::MissingRight);
            None
        }
    } else {
        None
    };
    proof {
        assert(warnings@ =~= warn_seq(
            l && old(data).left_port is None,
            r && old(data).right_port is None,
        ));
    }
    Dispatch {
        calls: Vec::new(),
        query: Some(Query { kind, left: lq, right: rq }),
        anims: Vec::new(),
        warnings,
    }
}

/// Runs a visual command with per-side presence flags: invalidates the
/// pair token and each requested side's token, then wakes and calls each
/// requested configured side with its own copy of the request.
fn run_flag_visual(
    data: &mut HandlerData,
    l: bool,
    r: bool,
    c_left: DeviceCall,
    c_right: DeviceCall,
    Ghost(cmd): Ghost<u8>,
    Ghost(params): Ghost<Seq<u8>>,
) -> (d: Dispatch)
    requires
        call_is(c_left, cmd, params, 0),
        call_is(c_right, cmd, params, 0),
    ensures
        flag_visual_arm(*old(data), *final(data), d, l, r, cmd, params),
{
    data.kill_threads(!l, !r);
    let mut calls: Vec<(Side, DeviceCall)> = Vec::new();
    let mut warnings: Vec<Warning> = Vec::new();
    if l {
        if wake_port(&mut data.left_port) {
            calls.push((Side::Left, c_left));
        } else {
            warnings.push(Warning::MissingLeft);
        }
    }
    if r {
        if wake_port(&mut data.right_port) {
            calls.push((Side::Right, c_right));
        } else {
            warnings.push(Warning::MissingRight);
        }
    }
    proof {
        assert(calls_match(
            calls@,
            two_side_calls(
                l && old(data).left_port is Some,
                params,
                r && old(data).right_port is Some,
                params,
                cmd,
            ),
        ));
        assert(warnings@ =~= warn_seq(
            l && old(data).left_port is None,
            r && old(data).right_port is None,
        ));
    }
    Dispatch { calls, query: None, anims: Vec::new(), warnings }
}

/// Runs a visual command with per-side optional payloads: invalidates
/// tokens side by side as the addressed payloads demand, wakes and calls
/// each addressed configured side, warns about addressed unconfigured
/// ones.
fn run_opt_visual(
    data: &mut HandlerData,
    lcall: Option<DeviceCall>,
    rcall: Option<DeviceCall>,
    Ghost(cmd): Ghost<u8>,
    Ghost(lparams): Ghost<Seq<u8>>,
    Ghost(rparams): Ghost<Seq<u8>>,
) -> (d: Dispatch)
    requires
        lcall matches Some(c) ==> call_is(c, cmd, lparams, 0),
        rcall matches Some(c) ==> call_is(c, cmd, rparams, 0),
    ensures
        opt_visual_arm(
            *old(data),
            *final(data),
            d,
            lcall is Some,
            rcall is Some,
            cmd,
            lparams,
            rparams,
        ),
{
    let mut calls: Vec<(Side, DeviceCall)> = Vec::new();
    let mut warnings: Vec<Warning> = Vec::new();
    let lsome = lcall.is_some();
    let rsome = rcall.is_some();
    match lcall {
        Some(c) => {
            data.kill_threads(false, true);
            if wake_port(&mut data.left_port) {
                calls.push((Side::Left, c));
            } else {
                warnings.push(Warning::MissingLeft);
            }
        },
        None => {},
    }
    match rcall {
        Some(c) => {
            data.kill_threads(true, false);
            if wake_port(&mut data.right_port) {
                calls.push((Side::Right, c));
            } else {
                warnings.push(Warning::MissingRight);
            }
        },
        None => {},
    }
    proof {
        assert(calls_match(
            calls@,
            two_side_calls(
                lsome && old(data).left_port is Some,
                lparams,
                rsome && old(data).right_port is Some,
                rparams,
                cmd,
            ),
        ));
        assert(warnings@ =~= warn_seq(
            lsome && old(data).left_port is None,
            rsome && old(data).right_port is None,
        ));
    }
    Dispatch { calls, query: None, anims: Vec::new(), warnings }
}

/// Answers a sleep query from the locally tracked flags alone: no device
/// call, no preemption, no state change.
fn run_get_sleep(data: &mut HandlerData, l: bool, r: bool) -> (res: (Dispatch, IpcResponse))
    ensures
        *final(data) == *old(data),
        res.1 == IpcResponse::Sleeping(
            if l {
                sleep_flag(old(data).left_port)
            } else {
                None::<bool>
            },
            if r {
                sleep_flag(old(data).right_port)
            } else {
                None::<bool>
            },
        ),
        res.0.query is None,
        res.0.calls@.len() == 0,
        res.0.anims@.len() == 0,
        res.0.warnings@ == warn_seq(
            l && old(data).left_port is None,
            r && old(data).right_port is None,
        ),
{
    let mut warnings: Vec<Warning> = Vec::new();
    let lres: Option<bool> = if l {
        match &data.left_port {
            Some(m) => Some(m.sleeping),
            None => {
                warnings.push(Warning::MissingLeft);
                None
            },
        }
    } else {
        None
    };
    let rres: Option<bool> = if r {
        match &data.right_port {
            Some(m) => Some(m.sleeping),
            None => {
                warnings.push(Warning::MissingRight);
                None
            },
        }
    } else {
        None
    };
    proof {
        assert(warnings@ =~= warn_seq(
            l && old(data).left_port is None,
            r && old(data).right_port is None,
        ));
    }
    (
        Dispatch { calls: Vec::new(), query: None, anims: Vec::new(), warnings },
        IpcResponse::Sleeping(lres, rres),
    )
}

/// Runs a brightness change: no preemption, addressed configured sides
/// woken and called, addressed unconfigured sides warned about.
fn run_set_brightness(data: &mut HandlerData, lo: Option<u8>, ro: Option<u8>) -> (d: Dispatch)
    ensures
        dispatch_spec(IpcCommand::SetBrightness(lo, ro), *old(data), *final(data), d),
{
    let mut calls: Vec<(Side, DeviceCall)> = Vec::new();
    let mut warnings: Vec<Warning> = Vec::new();
    match lo {
        Some(b) => {
            if wake_port(&mut data.left_port) {
                calls.push((Side::Left, crate::matrix::set_brightness(b)));
            } else {
                warnings.push(Warning::MissingLeft);
            }
        },
        None => {},
    }
    match ro {
        Some(b) => {
            if wake_port(&mut data.right_port) {
                calls.push((Side::Right, crate::matrix::set_brightness(b)));
            } else {
                warnings.push(Warning::MissingRight);
            }
        },
        None => {},
    }
    proof {
        assert(calls_match(
            calls@,
            two_side_calls(
                lo is Some && old(data).left_port is Some,
                (match lo {
                    Some(b) => seq![b],
                    None => Seq::<u8>::empty(),
                }),
                ro is Some && old(data).right_port is Some,
                (match ro {
                    Some(b) => seq![b],
                    None => Seq::<u8>::empty(),
                }),
                0x00,
            ),
        ));
        assert(warnings@ =~= warn_seq(
            lo is Some && old(data).left_port is None,
            ro is Some && old(data).right_port is None,
        ));
    }
    Dispatch { calls, query: None, anims: Vec::new(), warnings }
}

/// Runs a sleep change: per-side preemption, the tracked flag of each
/// addressed configured side forced to the new value and the matching
/// device call issued, addressed unconfigured sides warned about.
fn run_set_sleep(data: &mut HandlerData, lo: Option<bool>, ro: Option<bool>) -> (d: Dispatch)
    ensures
        dispatch_spec(IpcCommand::SetSleep(lo, ro), *old(data), *final(data), d),
{
    let mut calls: Vec<(Side, DeviceCall)> = Vec::new();
    let mut warnings: Vec<Warning> = Vec::new();
    match lo {
        Some(s) => {
            data.kill_threads(false, true);
            if set_port_sleep(&mut data.left_port, s) {
                calls.push((Side::Left, crate::matrix::set_sleep(s)));
            } else {
                warnings.push(Warning::MissingLeft);
            }
        },
        None => {},
    }
    match ro {
        Some(s) => {
            data.kill_threads(true, false);
            if set_port_sleep(&mut data.right_port, s) {
                calls.push((Side::Right, crate::matrix::set_sleep(s)));
            } else {
                warnings.push(Warning::MissingRight);
            }
        },
        None => {},
    }
    proof {
        assert(calls_match(
            calls@,
            two_side_calls(
                lo is Some && old(data).left_port is Some,
                (match lo {
                    Some(s) => seq![if s {
                        1u8
                    } else {
                        0u8
                    }],
                    None => Seq::<u8>::empty(),
                }),
                ro is Some && old(data).right_port is Some,
                (match ro {
                    Some(s) => seq![if s {
                        1u8
                    } else {
                        0u8
                    }],
                    None => Seq::<u8>::empty(),
                }),
                0x03,
            ),
        ));
        assert(warnings@ =~= warn_seq(
            lo is Some && old(data).left_port is None,
            ro is Some && old(data).right_port is None,
        ));
    }
    Dispatch { calls, query: None, anims: Vec::new(), warnings }
}

/// Runs a one- or two-sided render: a single frame synchronously, more
/// frames as an animation under a fresh token, with the sides' previous
/// tokens and the pair token invalidated first.
#[verifier::rlimit(100)]
fn run_render_single(
    data: &mut HandlerData,
    lo: Option<Vec<(Vec<u8>, u64)>>,
    ro: Option<Vec<(Vec<u8>, u64)>>,
) -> (d: Dispatch)
    requires
        IpcCommand::RenderSingle(lo, ro).spec_valid(),
        old(data).wf(),
        old(data).next_token as int + 2 <= u64::MAX as int,
    ensures
        render_single_arm(*old(data), *final(data), d, lo, ro),
        final(data).wf(),
{
    let mut calls: Vec<(Side, DeviceCall)> = Vec::new();
    let mut warnings: Vec<Warning> = Vec::new();
    let mut anims: Vec<AnimStart> = Vec::new();
    match lo {
        Some(s) => {
            data.kill_threads(false, true);
            if s.len() == 1 {
                assert(s@[0].0@.len() == 306);
                if wake_port(&mut data.left_port) {
                    let mut cs = render_single_on(Side::Left, &s[0].0);
                    calls.append(&mut cs);
                } else {
                    warnings.push(Warning::MissingLeft);
                }
            } else {
                let token = data.start_left_thread();
                let _present = wake_port(&mut data.left_port);
                anims.push(AnimStart { target: Target::Left, token, frames: s });
            }
        },
        None => {},
    }
    match ro {
        Some(s) => {
            data.kill_threads(true, false);
            if s.len() == 1 {
                assert(s@[0].0@.len() == 306);
                if wake_port(&mut data.right_port) {
                    let mut cs = render_single_on(Side::Right, &s[0].0);
                    calls.append(&mut cs);
                } else {
                    warnings.push(Warning::MissingRight);
                }
            } else {
                let token = data.start_right_thread();
                let _present = wake_port(&mut data.right_port);
                anims.push(AnimStart { target: Target::Right, token, frames: s });
            }
        },
        None => {},
    }
    proof {
        let ghost la = sync_calls(Side::Left, lo, old(data).left_port is Some);
        let ghost ra = sync_calls(Side::Right, ro, old(data).right_port is Some);
        lemma_calls_match_concat(
            calls@.subrange(0, la.len() as int),
            calls@.subrange(la.len() as int, calls@.len() as int),
            la,
            ra,
        );
        assert(calls@ =~= calls@.subrange(0, la.len() as int) + calls@.subrange(
            la.len() as int,
            calls@.len() as int,
        ));
        assert(warnings@ =~= warn_seq(
            is_sync(lo) && old(data).left_port is None,
            is_sync(ro) && old(data).right_port is None,
        ));
    }
    Dispatch { calls, query: None, anims, warnings }
}

/// Runs a paired render: every token invalidated, one frame rendered
/// synchronously across both devices (a warned no-op if either side is
/// unconfigured), more frames as one pair animation under a fresh token.
fn run_render_pair(data: &mut HandlerData, p: Vec<(Vec<u8>, u64)>) -> (d: Dispatch)
    requires
        IpcCommand::RenderPair(p).spec_valid(),
        old(data).wf(),
        old(data).next_token as int + 2 <= u64::MAX as int,
    ensures
        render_pair_arm(*old(data), *final(data), d, p),
        final(data).wf(),
{
    let mut calls: Vec<(Side, DeviceCall)> = Vec::new();
    let mut warnings: Vec<Warning> = Vec::new();
    let mut anims: Vec<AnimStart> = Vec::new();
    data.kill_threads(false, false);
    if p.len() == 1 {
        if data.left_port.is_some() && data.right_port.is_some() {
            let _wl = wake_port(&mut data.left_port);
            let _wr = wake_port(&mut data.right_port);
            assert(p@[0].0@.len() == 612);
            calls = crate::matrix::render_pair(&p[0].0);
        } else {
            warnings.push(Warning::MissingPair);
        }
    } else {
        let token = data.start_pair_thread();
        if data.left_port.is_some() && data.right_port.is_some() {
            let _wl = wake_port(&mut data.left_port);
            let _wr = wake_port(&mut data.right_port);
        }
        anims.push(AnimStart { target: Target::Pair, token, frames: p });
    }
    Dispatch { calls, query: None, anims, warnings }
}

/// Dispatches one validated command: updates the shared state (tracked
/// sleep flags and animation tokens) and returns exactly the work the
/// command stands for.  Only a sleep query writes the response here; it
/// is answered from the locally tracked flags and performs no device
/// call.  Single-frame renders are always planned synchronously; only
/// multi-frame renders start animations, each under a token fresh against
/// every live one.
#[verifier::rlimit(50)]
pub fn handler(command: IpcCommand, response: &mut Option<IpcResponse>, data: &mut HandlerData) -> (
    d: Dispatch)
    requires
        command.spec_valid(),
        old(data).wf(),
        old(data).next_token as int + 2 <= u64::MAX as int,
    ensures
        handler_spec(command, *old(data), *final(data), *final(response), d),
        final(data).wf(),
{
    *response = None;
    match command {
        IpcCommand::GetBrightness(l, r) => run_query(data, l, r, QueryKind::Brightness),
        IpcCommand::GetAnimate(l, r) => run_query(data, l, r, QueryKind::Scroll),
        IpcCommand::Version(l, r) => run_query(data, l, r, QueryKind::Version),
        IpcCommand::GetSleep(l, r) => {
            let (d, resp) = run_get_sleep(data, l, r);
            *response = Some(resp);
            d
        },
        IpcCommand::SetBrightness(lo, ro) => run_set_brightness(data, lo, ro),
        IpcCommand::SetSleep(lo, ro) => run_set_sleep(data, lo, ro),
        IpcCommand::SetAnimate(lo, ro) => {
            let lcall: Option<DeviceCall> = match lo {
                Some(s) => Some(crate::matrix::set_scroll(s)),
                None => None,
            };
            let rcall: Option<DeviceCall> = match ro {
                Some(s) => Some(crate::matrix::set_scroll(s)),
                None => None,
            };
            run_opt_visual(
                data,
                lcall,
                rcall,
                Ghost(0x04),
                Ghost(
                    match lo {
                        Some(s) => seq![if s {
                            1u8
                        } else {
                            0u8
                        }],
                        None => Seq::<u8>::empty(),
                    },
                ),
                Ghost(
                    match ro {
                        Some(s) => seq![if s {
                            1u8
                        } else {
                            0u8
                        }],
                        None => Seq::<u8>::empty(),
                    },
                ),
            )
        },
        IpcCommand::PatternPercentage(lo, ro) => {
            let lcall: Option<DeviceCall> = match lo {
                Some(p) => Some(crate::matrix::render_percentage(p)),
                None => None,
            };
            let rcall: Option<DeviceCall> = match ro {
                Some(p) => Some(crate::matrix::render_percentage(p)),
                None => None,
            };
            run_opt_visual(
                data,
                lcall,
                rcall,
                Ghost(0x01),
                Ghost(
                    match lo {
                        Some(p) => seq![0x00u8, p],
                        None => Seq::<u8>::empty(),
                    },
                ),
                Ghost(
                    match ro {
                        Some(p) => seq![0x00u8, p],
                        None => Seq::<u8>::empty(),
                    },
                ),
            )
        },
        IpcCommand::PatternGradient(l, r) => {
            let ghost gparams: Seq<u8> = seq![0x01u8];
            run_flag_visual(
                data,
                l,
                r,
                crate::matrix::render_gradient(),
                crate::matrix::render_gradient(),
                Ghost(0x01),
                Ghost(gparams),
            )
        },
        IpcCommand::PatternDoubleGradient(l, r) => {
            let ghost gparams: Seq<u8> = seq![0x02u8];
            run_flag_visual(
                data,
                l,
                r,
                crate::matrix::render_double_gradient(),
                crate::matrix::render_double_gradient(),
                Ghost(0x01),
                Ghost(gparams),
            )
        },
        IpcCommand::PatternLotusHorizontal(l, r) => {
            let ghost gparams: Seq<u8> = seq![0x03u8];
            run_flag_visual(
                data,
                l,
                r,
                crate::matrix::render_lotus_horizontal(),
                crate::matrix::render_lotus_horizontal(),
                Ghost(0x01),
                Ghost(gparams),
            )
        },
        IpcCommand::PatternLotusVertical(l, r) => {
            let ghost gparams: Seq<u8> = seq![0x07u8];
            run_flag_visual(
                data,
                l,
                r,
                crate::matrix::render_lotus_vertical(),
                crate::matrix::render_lotus_vertical(),
                Ghost(0x01),
                Ghost(gparams),
            )
        },
        IpcCommand::PatternZigzag(l, r) => {
            let ghost gparams: Seq<u8> = seq![0x04u8];
            run_flag_visual(
                data,
                l,
                r,
                crate::matrix::render_zigzag(),
                crate::matrix::render_zigzag(),
                Ghost(0x01),
                Ghost(gparams),
            )
        },
        IpcCommand::PatternFullbright(l, r) => {
            let ghost gparams: Seq<u8> = seq![0x05u8];
            run_flag_visual(
                data,
                l,
                r,
                crate::matrix::render_fullbright(),
                crate::matrix::render_fullbright(),
                Ghost(0x01),
                Ghost(gparams),
            )
        },
        IpcCommand::PatternPanic(l, r) => {
            let ghost gparams: Seq<u8> = seq![0x06u8];
            run_flag_visual(
                data,
                l,
                r,
                crate::matrix::render_panic(),
                crate::matrix::render_panic(),
                Ghost(0x01),
                Ghost(gparams),
            )
        },
        IpcCommand::Bootloader(l, r) => {
            let ghost gparams: Seq<u8> = Seq::empty();
            run_flag_visual(
                data,
                l,
                r,
                crate::matrix::bootloader(),
                crate::matrix::bootloader(),
                Ghost(0x02),
                Ghost(gparams),
            )
        },
        IpcCommand::Crash(l, r) => {
            let ghost gparams: Seq<u8> = Seq::empty();
            run_flag_visual(
                data,
                l,
                r,
                crate::matrix::crash(),
                crate::matrix::crash(),
                Ghost(0x05),
                Ghost(gparams),
            )
        },
        IpcCommand::FlushCols(l, r) => {
            let ghost gparams: Seq<u8> = Seq::empty();
            run_flag_visual(
                data,
                l,
                r,
                crate::matrix::flush_columns(),
                crate::matrix::flush_columns(),
                Ghost(0x08),
                Ghost(gparams),
            )
        },
        IpcCommand::DrawBW(lo, ro) => {
            let lcall: Option<DeviceCall> = match &lo {
                Some(b) => Some(crate::matrix::draw_bw(b)),
                None => None,
            };
            let rcall: Option<DeviceCall> = match &ro {
                Some(b) => Some(crate::matrix::draw_bw(b)),
                None => None,
            };
            run_opt_visual(
                data,
                lcall,
                rcall,
                Ghost(0x06),
                Ghost(
                    match lo {
                        Some(b) => b@,
                        None => Seq::<u8>::empty(),
                    },
                ),
                Ghost(
                    match ro {
                        Some(b) => b@,
                        None => Seq::<u8>::empty(),
                    },
                ),
            )
        },
        IpcCommand::StageCol(lo, ro) => {
            let lcall: Option<DeviceCall> = match &lo {
                Some((c, v)) => Some(crate::matrix::stage_column(*c, v)),
                None => None,
            };
            let rcall: Option<DeviceCall> = match &ro {
                Some((c, v)) => Some(crate::matrix::stage_column(*c, v)),
                None => None,
            };
            run_opt_visual(
                data,
                lcall,
                rcall,
                Ghost(0x07),
                Ghost(
                    match lo {
                        Some((c, v)) => seq![c] + v@,
                        None => Seq::<u8>::empty(),
                    },
                ),
                Ghost(
                    match ro {
                        Some((c, v)) => seq![c] + v@,
                        None => Seq::<u8>::empty(),
                    },
                ),
            )
        },
        IpcCommand::RenderSingle(lo, ro) => run_render_single(data, lo, ro),
        IpcCommand::RenderPair(p) => run_render_pair(data, p),
    }
}

/// Whether the command is of the visual class: it draws on, or otherwise
/// disturbs, the display of every side it addresses, and therefore
/// preempts animations there.
pub open spec fn is_visual(cmd: IpcCommand) -> bool {
    match cmd {
        IpcCommand::SetSleep(_, _) => true,
        IpcCommand::SetAnimate(_, _) => true,
        IpcCommand::PatternPercentage(_, _) => true,
        IpcCommand::PatternGradient(_, _) => true,
        IpcCommand::PatternDoubleGradient(_, _) => true,
        IpcCommand::PatternLotusHorizontal(_, _) => true,
        IpcCommand::PatternLotusVertical(_, _) => true,
        IpcCommand::PatternZigzag(_, _) => true,
        IpcCommand::PatternFullbright(_, _) => true,
        IpcCommand::PatternPanic(_, _) => true,
        IpcCommand::Bootloader(_, _) => true,
        IpcCommand::Crash(_, _) => true,
        IpcCommand::DrawBW(_, _) => true,
        IpcCommand::StageCol(_, _) => true,
        IpcCommand::FlushCols(_, _) => true,
        IpcCommand::RenderSingle(_, _) => true,
        IpcCommand::RenderPair(_) => true,
        _ => false,
    }
}

/// Whether the command addresses the left device.  A paired command
/// addresses a device only when both are configured: with one missing it
/// is a warned no-op.
pub open spec fn touches_left(cmd: IpcCommand, pre: HandlerData) -> bool {
    match cmd {
        IpcCommand::SetSleep(lo, _) => lo is Some,
        IpcCommand::SetAnimate(lo, _) => lo is Some,
        IpcCommand::PatternPercentage(lo, _) => lo is Some,
        IpcCommand::PatternGradient(l, _) => l,
        IpcCommand::PatternDoubleGradient(l, _) => l,
        IpcCommand::PatternLotusHorizontal(l, _) => l,
        IpcCommand::PatternLotusVertical(l, _) => l,
        IpcCommand::PatternZigzag(l, _) => l,
        IpcCommand::PatternFullbright(l, _) => l,
        IpcCommand::PatternPanic(l, _) => l,
        IpcCommand::Bootloader(l, _) => l,
        IpcCommand::Crash(l, _) => l,
        IpcCommand::DrawBW(lo, _) => lo is Some,
        IpcCommand::StageCol(lo, _) => lo is Some,
        IpcCommand::FlushCols(l, _) => l,
        IpcCommand::RenderSingle(lo, _) => lo is Some,
        IpcCommand::RenderPair(_) => pre.left_port is Some && pre.right_port is Some,
        _ => false,
    }
}

/// Whether the command addresses the right device.
pub open spec fn touches_right(cmd: IpcCommand, pre: HandlerData) -> bool {
    match cmd {
        IpcCommand::SetSleep(_, ro) => ro is Some,
        IpcCommand::SetAnimate(_, ro) => ro is Some,
        IpcCommand::PatternPercentage(_, ro) => ro is Some,
        IpcCommand::PatternGradient(_, r) => r,
        IpcCommand::PatternDoubleGradient(_, r) => r,
        IpcCommand::PatternLotusHorizontal(_, r) => r,
        IpcCommand::PatternLotusVertical(_, r) => r,
        IpcCommand::PatternZigzag(_, r) => r,
        IpcCommand::PatternFullbright(_, r) => r,
        IpcCommand::PatternPanic(_, r) => r,
        IpcCommand::Bootloader(_, r) => r,
        IpcCommand::Crash(_, r) => r,
        IpcCommand::DrawBW(_, ro) => ro is Some,
        IpcCommand::StageCol(_, ro) => ro is Some,
        IpcCommand::FlushCols(_, r) => r,
        IpcCommand::RenderSingle(_, ro) => ro is Some,
        IpcCommand::RenderPair(_) => pre.left_port is Some && pre.right_port is Some,
        _ => false,
    }
}

/// Law: a render whose every payload holds exactly one frame is executed
/// synchronously; it starts no background animation and draws no token.
pub proof fn lemma_single_frame_render_synchronous(
    cmd: IpcCommand,
    pre: HandlerData,
    post: HandlerData,
    resp: Option<IpcResponse>,
    d: Dispatch,
)
    requires
        handler_spec(cmd, pre, post, resp, d),
        cmd is RenderSingle || cmd is RenderPair,
        cmd matches IpcCommand::RenderSingle(lo, ro) ==> !is_anim(lo) && !is_anim(ro),
        cmd matches IpcCommand::RenderPair(p) ==> p@.len() == 1,
    ensures
        d.anims@.len() == 0,
        post.next_token == pre.next_token,
{
}

/// Law: starting an animation invalidates every token previously live
/// for its target or for the pair, and the fresh token differs from all
/// of them, so a preempted task can never mistake the new token for its
/// own.  Together with the contract of [`anim_step`], which returns
/// nothing and stops as soon as a task's token is stale, the preempted
/// task terminates at its next frame boundary.
pub proof fn lemma_animation_start_preempts(
    cmd: IpcCommand,
    pre: HandlerData,
    post: HandlerData,
    resp: Option<IpcResponse>,
    d: Dispatch,
    i: int,
    tok: u64,
)
    requires
        pre.wf(),
        handler_spec(cmd, pre, post, resp, d),
        0 <= i < d.anims@.len(),
        pre.token_live(d.anims@[i].target, tok) || pre.token_live(Target::Pair, tok),
    ensures
        !post.token_live(d.anims@[i].target, tok),
        !post.token_live(Target::Pair, tok),
        d.anims@[i].token != tok,
{
}

/// Law: querying the sleep state is answered from the locally tracked
/// flags alone; it issues no device call, plans no query, starts no
/// animation, and leaves the shared state untouched.
pub proof fn lemma_get_sleep_is_local(
    cmd: IpcCommand,
    pre: HandlerData,
    post: HandlerData,
    resp: Option<IpcResponse>,
    d: Dispatch,
)
    requires
        handler_spec(cmd, pre, post, resp, d),
        cmd is GetSleep,
    ensures
        d.calls@.len() == 0,
        d.query is None,
        d.anims@.len() == 0,
        post == pre,
        cmd matches IpcCommand::GetSleep(l, r) ==> resp == Some(
            IpcResponse::Sleeping(
                if l {
                    sleep_flag(pre.left_port)
                } else {
                    None::<bool>
                },
                if r {
                    sleep_flag(pre.right_port)
                } else {
                    None::<bool>
                },
            ),
        ),
{
}

/// Law: a visual command clears the tracked sleeping flag of every
/// configured side it addresses, even though the wire protocol has no
/// dedicated wake request: any traffic implicitly wakes the device.  The
/// sleep command itself is the one exception, since it forces the flag
/// to the value it carries.
pub proof fn lemma_visual_command_wakes(
    cmd: IpcCommand,
    pre: HandlerData,
    post: HandlerData,
    resp: Option<IpcResponse>,
    d: Dispatch,
)
    requires
        handler_spec(cmd, pre, post, resp, d),
        is_visual(cmd),
        !(cmd is SetSleep),
    ensures
        touches_left(cmd, pre) && pre.left_port is Some ==> (post.left_port matches Some(m)
            && !m.sleeping),
        touches_right(cmd, pre) && pre.right_port is Some ==> (post.right_port matches Some(m)
            && !m.sleeping),
{
}

} // verus!
