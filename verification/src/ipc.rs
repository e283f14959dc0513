//! The commands and responses exchanged between clients and the daemon.
//!
//! A command names, per physical side, either a presence flag (query forms)
//! or an optional payload (mutation forms); paired rendering carries one
//! combined payload.  [`IpcCommand::validate`] checks every length and range
//! rule before a command is allowed anywhere near the device codec.

use crate::error::Error;
use vstd::prelude::*;

verus! {

/// A request received over the local socket.  Tuple fields are `(left,
/// right)` except for `RenderPair`, which treats both matrixes as one
/// 18-column display.  Frame sequences pair each 306- or 612-byte frame
/// with its display duration in milliseconds.
#[derive(Debug, Clone)]
pub enum IpcCommand {
    SetBrightness(Option<u8>, Option<u8>),
    GetBrightness(bool, bool),
    PatternPercentage(Option<u8>, Option<u8>),
    PatternGradient(bool, bool),
    PatternDoubleGradient(bool, bool),
    PatternLotusHorizontal(bool, bool),
    PatternLotusVertical(bool, bool),
    PatternZigzag(bool, bool),
    PatternFullbright(bool, bool),
    PatternPanic(bool, bool),
    Bootloader(bool, bool),
    SetSleep(Option<bool>, Option<bool>),
    GetSleep(bool, bool),
    SetAnimate(Option<bool>, Option<bool>),
    GetAnimate(bool, bool),
    Crash(bool, bool),
    DrawBW(Option<Vec<u8>>, Option<Vec<u8>>),
    StageCol(Option<(u8, Vec<u8>)>, Option<(u8, Vec<u8>)>),
    FlushCols(bool, bool),
    Version(bool, bool),
    RenderSingle(Option<Vec<(Vec<u8>, u64)>>, Option<Vec<(Vec<u8>, u64)>>),
    RenderPair(Vec<(Vec<u8>, u64)>),
}

/// A response sent back for query-class commands, or the error report for
/// a command that failed validation or execution.
#[derive(Debug, Clone)]
pub enum IpcResponse {
    Brightness(Option<u8>, Option<u8>),
    Sleeping(Option<bool>, Option<bool>),
    Animated(Option<bool>, Option<bool>),
    Version(Option<Vec<u8>>, Option<Vec<u8>>),
    InvalidCommand(Error),
}

/// Whether every frame of the sequence has exactly `n` pixel bytes.
pub open spec fn frames_ok(fs: Seq<(Vec<u8>, u64)>, n: int) -> bool {
    forall|i: int| 0 <= i < fs.len() ==> (#[trigger] fs[i]).0@.len() == n
}

/// Whether an optional payload is present with a length other than `n`.
pub open spec fn opt_len_bad(o: Option<Vec<u8>>, n: int) -> bool {
    o matches Some(v) && v@.len() != n
}

/// The side named by a wrong-length report: both sides, only the left, or
/// only the right.
pub open spec fn side_msg(lbad: bool, rbad: bool) -> Seq<char> {
    if lbad && rbad {
        "both matrixes have "@
    } else if lbad {
        "left matrix has "@
    } else {
        "right matrix has "@
    }
}

/// Whether `idx` is the first frame of `fs` whose length is not `n`, and
/// `sz` is that frame's length.
pub open spec fn first_bad_frame(fs: Seq<(Vec<u8>, u64)>, n: int, sz: int, idx: int) -> bool {
    &&& 0 <= idx < fs.len()
    &&& fs[idx].0@.len() == sz
    &&& sz != n
    &&& forall|j: int| 0 <= j < idx ==> (#[trigger] fs[j]).0@.len() == n
}

impl IpcCommand {
    /// Whether the command's payloads obey every length and range rule:
    /// monochrome bitmaps hold 39 bytes, staged columns name a column
    /// below nine and hold 34 values, single-side frames hold 306 bytes
    /// and paired frames 612.
    pub open spec fn spec_valid(self) -> bool {
        match self {
            IpcCommand::DrawBW(l, r) => !opt_len_bad(l, 39) && !opt_len_bad(r, 39),
            IpcCommand::StageCol(l, r) => {
                &&& (l matches Some((c, v)) ==> c < 9 && v@.len() == 34)
                &&& (r matches Some((c, v)) ==> c < 9 && v@.len() == 34)
            },
            IpcCommand::RenderSingle(l, r) => {
                &&& (l matches Some(fs) ==> frames_ok(fs@, 306))
                &&& (r matches Some(fs) ==> frames_ok(fs@, 306))
            },
            IpcCommand::RenderPair(p) => frames_ok(p@, 612),
            _ => true,
        }
    }

    /// Checks the rules of [`IpcCommand::spec_valid`], reporting the first
    /// violation exactly as found: a wrong bitmap or column-value length
    /// names the offending side or sides, an out-of-range column index
    /// names the index, and a wrong frame length names the side, the
    /// length found and the index of the first offending frame.
    #[verifier::loop_isolation(false)]
    pub fn validate(&self) -> (res: Result<(), Error>)
        ensures
            res is Ok <==> self.spec_valid(),
            self matches IpcCommand::DrawBW(l, r) ==> (!self.spec_valid() ==> (res matches Err(
                Error::InvalidVecSize(m, n),
            ) && m@ == side_msg(opt_len_bad(*l, 39), opt_len_bad(*r, 39)) && n == 39)),
            self matches IpcCommand::StageCol(l, r) ==> (l matches Some((c, v)) ==> (c >= 9 ==> (
            res matches Err(Error::InvalidColNumber(cc)) && cc == c))),
            self matches IpcCommand::StageCol(l, r) ==> ((l matches Some((c, v)) ==> c < 9) ==> (
            r matches Some((c2, v2)) ==> (c2 >= 9 ==> (res matches Err(Error::InvalidColNumber(cc))
                && cc == c2)))),
            self matches IpcCommand::StageCol(l, r) ==> ((l matches Some((c, v)) ==> c < 9) && (
            r matches Some((c2, v2)) ==> c2 < 9) && !self.spec_valid() ==> (res matches Err(
                Error::InvalidVecSize(m, n),
            ) && m@ == side_msg(
                (l matches Some((c, v)) && v@.len() != 34),
                (r matches Some((c2, v2)) && v2@.len() != 34),
            ) && n == 34)),
            self matches IpcCommand::RenderSingle(l, r) ==> (l matches Some(fs) ==> (!frames_ok(
                fs@,
                306,
            ) ==> (res matches Err(Error::InvalidVecSizeFrame(m, sz, idx)) && m@
                == "left matrix has "@ && first_bad_frame(fs@, 306, sz as int, idx as int)))),
            self matches IpcCommand::RenderSingle(l, r) ==> ((l matches Some(fs) ==> frames_ok(
                fs@,
                306,
            )) ==> (r matches Some(fs2) ==> (!frames_ok(fs2@, 306) ==> (res matches Err(
                Error::InvalidVecSizeFrame(m, sz, idx),
            ) && m@ == "right matrix has "@ && first_bad_frame(
                fs2@,
                306,
                sz as int,
                idx as int,
            ))))),
            self matches IpcCommand::RenderPair(p) ==> (!frames_ok(p@, 612) ==> (res matches Err(
                Error::InvalidVecSizeFrame(m, sz, idx),
            ) && m@ == Seq::<char>::empty() && first_bad_frame(p@, 612, sz as int, idx as int))),
    {
        match self {
            IpcCommand::DrawBW(l, r) => {
                let lbad = match l {
                    Some(v) => v.len() != 39,
                    None => false,
                };
                let rbad = match r {
                    Some(v) => v.len() != 39,
                    None => false,
                };
                if lbad && rbad {
                    Err(Error::InvalidVecSize("both matrixes have ".to_string(), 39))
                } else if lbad {
                    Err(Error::InvalidVecSize("left matrix has ".to_string(), 39))
                } else if rbad {
                    Err(Error::InvalidVecSize("right matrix has ".to_string(), 39))
                } else {
                    Ok(())
                }
            },
            IpcCommand::StageCol(l, r) => {
                if let Some((c, _v)) = l {
                    if *c >= 9 {
                        return Err(Error::InvalidColNumber(*c));
                    }
                }
                if let Some((c2, _v2)) = r {
                    if *c2 >= 9 {
                        return Err(Error::InvalidColNumber(*c2));
                    }
                }
                let lbad = match l {
                    Some((_c, v)) => v.len() != 34,
                    None => false,
                };
                let rbad = match r {
                    Some((_c2, v2)) => v2.len() != 34,
                    None => false,
                };
                if lbad && rbad {
                    Err(Error::InvalidVecSize("both matrixes have ".to_string(), 34))
                } else if lbad {
                    Err(Error::InvalidVecSize("left matrix has ".to_string(), 34))
                } else if rbad {
                    Err(Error::InvalidVecSize("right matrix has ".to_string(), 34))
                } else {
                    Ok(())
                }
            },
            IpcCommand::RenderSingle(l, r) => {
                if let Some(fs) = l {
                    let mut i: usize = 0;
                    while i < fs.len()
                        invariant
                            i <= fs@.len(),
                            forall|j: int| 0 <= j < i ==> (#[trigger] fs@[j]).0@.len() == 306,
                        decreases fs@.len() - i,
                    {
                        if fs[i].0.len() != 306 {
                            assert(fs@[i as int].0@.len() != 306);
                            assert(!frames_ok(fs@, 306));
                            return Err(
                                Error::InvalidVecSizeFrame(
                                    "left matrix has ".to_string(),
                                    fs[i].0.len(),
                                    i,
                                ),
                            );
                        }
                        i = i + 1;
                    }
                }
                if let Some(fs2) = r {
                    let mut i: usize = 0;
                    while i < fs2.len()
                        invariant
                            i <= fs2@.len(),
                            forall|j: int| 0 <= j < i ==> (#[trigger] fs2@[j]).0@.len() == 306,
                        decreases fs2@.len() - i,
                    {
                        if fs2[i].0.len() != 306 {
                            assert(fs2@[i as int].0@.len() != 306);
                            assert(!frames_ok(fs2@, 306));
                            return Err(
                                Error::InvalidVecSizeFrame(
                                    "right matrix has ".to_string(),
                                    fs2[i].0.len(),
                                    i,
                                ),
                            );
                        }
                        i = i + 1;
                    }
                }
                Ok(())
            },
            IpcCommand::RenderPair(p) => {
                let mut i: usize = 0;
                while i < p.len()
                    invariant
                        i <= p@.len(),
                        forall|j: int| 0 <= j < i ==> (#[trigger] p@[j]).0@.len() == 612,
                    decreases p@.len() - i,
                {
                    if p[i].0.len() != 612 {
                        assert(p@[i as int].0@.len() != 612);
                        assert(!frames_ok(p@, 612));
                        return Err(
                            Error::InvalidVecSizeFrame(String::new(), p[i].0.len(), i),
                        );
                    }
                    i = i + 1;
                }
                Ok(())
            },
            _ => Ok(()),
        }
    }

    /// Whether the command is of the query class, for which the daemon
    /// writes back exactly one response.
    pub fn needs_response(&self) -> (r: bool)
        ensures
            r == (self matches IpcCommand::GetBrightness(_, _) || self matches IpcCommand::GetSleep(
                _,
                _,
            ) || self matches IpcCommand::GetAnimate(_, _) || self matches IpcCommand::Version(
                _,
                _,
            )),
    {
        match self {
            IpcCommand::GetBrightness(_, _) => true,
            IpcCommand::GetSleep(_, _) => true,
            IpcCommand::GetAnimate(_, _) => true,
            IpcCommand::Version(_, _) => true,
            _ => false,
        }
    }
}

} // verus!
