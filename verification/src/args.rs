//! The command-line surface of the client, and its translation into IPC
//! commands.
//!
//! Argument parsing itself (flags, help text, value ranges) happens outside
//! this crate; what arrives here are the parsed argument records.  The
//! functions below turn each subcommand into exactly one [`IpcCommand`],
//! including the pair-mode column routing: a pair-relative column `0..=17`
//! is sent to the left device as-is up to column eight, and to the right
//! device minus nine from column nine on.

use crate::ipc::IpcCommand;
use vstd::prelude::*;
use vstd::slice::slice_to_vec;

verus! {

/// A matrix selector for commands that support pair mode.
#[derive(Debug, Clone, Copy, PartialEq, Eq, Structural)]
pub enum Matrix {
    Left,
    Right,
    Both,
    Pair,
}

/// A matrix selector for commands that act on whole sides only.
#[derive(Debug, Clone, Copy, PartialEq, Eq, Structural)]
pub enum MatrixNoPair {
    Left,
    Right,
    Both,
}

impl core::convert::From<MatrixNoPair> for Matrix {
    fn from(m: MatrixNoPair) -> Matrix {
        match m {
            MatrixNoPair::Left => Matrix::Left,
            MatrixNoPair::Right => Matrix::Right,
            MatrixNoPair::Both => Matrix::Both,
        }
    }
}

impl vstd::std_specs::convert::FromSpecImpl<MatrixNoPair> for Matrix {
    open spec fn obeys_from_spec() -> bool {
        true
    }

    open spec fn from_spec(m: MatrixNoPair) -> Matrix {
        match m {
            MatrixNoPair::Left => Matrix::Left,
            MatrixNoPair::Right => Matrix::Right,
            MatrixNoPair::Both => Matrix::Both,
        }
    }
}

/// Arguments of the scroll-animation subcommand.
#[derive(Debug, Clone)]
pub struct AnimateArgs {
    pub matrix: MatrixNoPair,
    pub set: Option<bool>,
    pub get: bool,
}

/// Arguments of the bootloader subcommand.
#[derive(Debug, Clone)]
pub struct BootloaderArgs {
    pub matrix: MatrixNoPair,
}

/// Arguments of the brightness subcommand.
#[derive(Debug, Clone)]
pub struct BrightnessArgs {
    pub matrix: MatrixNoPair,
    pub set: Option<u8>,
    pub get: bool,
}

/// Arguments of the crash subcommand.
#[derive(Debug, Clone)]
pub struct CrashArgs {
    pub matrix: MatrixNoPair,
}

/// Arguments of the draw-black-white subcommand: a 39-byte bitmap.
#[derive(Debug, Clone)]
pub struct DrawBWArgs {
    pub matrix: MatrixNoPair,
    pub bitmap: Vec<u8>,
}

/// Arguments of the exit-code explanation subcommand.
#[derive(Debug, Clone)]
pub struct ExplainArgs {
    pub code: u32,
}

/// Arguments of the flush-columns subcommand.
#[derive(Debug, Clone)]
pub struct FlushColsArgs {
    pub matrix: MatrixNoPair,
}

/// Arguments of the pattern subcommand; at most one pattern flag is set.
#[derive(Debug, Clone)]
pub struct PatternArgs {
    pub matrix: MatrixNoPair,
    pub percentage: Option<u8>,
    pub gradient: bool,
    pub double_gradient: bool,
    pub lotus_horizontal: bool,
    pub lotus_vertical: bool,
    pub zigzag: bool,
    pub fullbright: bool,
    pub panic_text: bool,
}

/// Arguments of the render subcommand: an image file, or a raw frame of
/// 306 bytes (612 in pair mode).
#[derive(Debug, Clone)]
pub struct RenderArgs {
    pub matrix: Matrix,
    pub file: Option<String>,
    pub raw: Option<Vec<u8>>,
}

/// Arguments of the sleep subcommand.
#[derive(Debug, Clone)]
pub struct SleepArgs {
    pub matrix: MatrixNoPair,
    pub set: Option<bool>,
    pub get: bool,
}

/// Arguments of the stage-column subcommand: a column index (`0..=8`, or
/// `0..=17` in pair mode) and its 34 grayscale values.
#[derive(Debug, Clone)]
pub struct StageColArgs {
    pub matrix: Matrix,
    pub column: u8,
    pub values: Vec<u8>,
}

/// Arguments of the version subcommand.
#[derive(Debug, Clone)]
pub struct VersionArgs {
    pub matrix: MatrixNoPair,
}

/// The client's subcommands.
#[derive(Debug, Clone)]
pub enum Commands {
    List,
    Explain(ExplainArgs),
    Render(RenderArgs),
    Brightness(BrightnessArgs),
    Pattern(PatternArgs),
    Sleep(SleepArgs),
    Animate(AnimateArgs),
    FlushCols(FlushColsArgs),
    Version(VersionArgs),
    Bootloader(BootloaderArgs),
    Crash(CrashArgs),
    StageCol(StageColArgs),
    DrawBW(DrawBWArgs),
}

/// The whole parsed command line.
#[derive(Debug, Clone)]
pub struct Args {
    pub command: Commands,
}

/// The per-side presence flags a side selector stands for.
pub open spec fn lr_flags(m: MatrixNoPair) -> (bool, bool) {
    match m {
        MatrixNoPair::Left => (true, false),
        MatrixNoPair::Right => (false, true),
        MatrixNoPair::Both => (true, true),
    }
}

/// The per-side optional payloads a side selector stands for.
pub open spec fn side_vals<T>(m: MatrixNoPair, v: T) -> (Option<T>, Option<T>) {
    match m {
        MatrixNoPair::Left => (Some(v), None),
        MatrixNoPair::Right => (None, Some(v)),
        MatrixNoPair::Both => (Some(v), Some(v)),
    }
}

/// Whether `fs` is the one-frame sequence holding `raw` with a zero
/// duration.
pub open spec fn one_frame(fs: Seq<(Vec<u8>, u64)>, raw: Seq<u8>) -> bool {
    fs.len() == 1 && fs[0].0@ == raw && fs[0].1 == 0
}

/// Whether two frame sequences are equal frame for frame, comparing pixel
/// buffers by contents.
pub open spec fn frames_view_eq(a: Seq<(Vec<u8>, u64)>, b: Seq<(Vec<u8>, u64)>) -> bool {
    a.len() == b.len() && forall|i: int|
        0 <= i < a.len() ==> (#[trigger] a[i]).0@ == b[i].0@ && a[i].1 == b[i].1
}

/// The render command a raw single frame turns into for each selector.
pub open spec fn raw_render_cmd(m: Matrix, raw: Seq<u8>, c: IpcCommand) -> bool {
    match m {
        Matrix::Left => c matches IpcCommand::RenderSingle(Some(l), None) && one_frame(l@, raw),
        Matrix::Right => c matches IpcCommand::RenderSingle(None, Some(r)) && one_frame(r@, raw),
        Matrix::Both => c matches IpcCommand::RenderSingle(Some(l), Some(r)) && one_frame(l@, raw)
            && one_frame(r@, raw),
        Matrix::Pair => c matches IpcCommand::RenderPair(p) && one_frame(p@, raw),
    }
}

/// The render command a decoded frame sequence turns into for each
/// selector.
pub open spec fn frames_render_cmd(m: Matrix, frames: Seq<(Vec<u8>, u64)>, c: IpcCommand) -> bool {
    match m {
        Matrix::Left => c matches IpcCommand::RenderSingle(Some(l), None) && l@ == frames,
        Matrix::Right => c matches IpcCommand::RenderSingle(None, Some(r)) && r@ == frames,
        Matrix::Both => c matches IpcCommand::RenderSingle(Some(l), Some(r)) && l@ == frames
            && frames_view_eq(r@, frames),
        Matrix::Pair => c matches IpcCommand::RenderPair(p) && p@ == frames,
    }
}

/// The stage-column command a column selection turns into: pair-relative
/// columns up to eight go to the left device under the same index, columns
/// nine and above go to the right device at the index minus nine.
pub open spec fn stage_col_cmd(m: Matrix, column: u8, values: Seq<u8>, c: IpcCommand) -> bool {
    match m {
        Matrix::Left => c matches IpcCommand::StageCol(Some((cc, v)), None) && cc == column && v@
            == values,
        Matrix::Right => c matches IpcCommand::StageCol(None, Some((cc, v))) && cc == column && v@
            == values,
        Matrix::Both => c matches IpcCommand::StageCol(Some((c1, v1)), Some((c2, v2))) && c1
            == column && v1@ == values && c2 == column && v2@ == values,
        Matrix::Pair => if column <= 8 {
            c matches IpcCommand::StageCol(Some((cc, v)), None) && cc == column && v@ == values
        } else {
            c matches IpcCommand::StageCol(None, Some((cc, v))) && cc == column - 9 && v@ == values
        },
    }
}

/// The draw-black-white command a bitmap turns into for each selector.
pub open spec fn drawbw_cmd(m: MatrixNoPair, bitmap: Seq<u8>, c: IpcCommand) -> bool {
    match m {
        MatrixNoPair::Left => c matches IpcCommand::DrawBW(Some(b), None) && b@ == bitmap,
        MatrixNoPair::Right => c matches IpcCommand::DrawBW(None, Some(b)) && b@ == bitmap,
        MatrixNoPair::Both => c matches IpcCommand::DrawBW(Some(b1), Some(b2)) && b1@ == bitmap
            && b2@ == bitmap,
    }
}

/// The pattern command the pattern flags turn into, trying the flags in
/// the same order as the command line defines them.
pub open spec fn pattern_cmd(a: PatternArgs, r: Option<IpcCommand>) -> bool {
    match a.percentage {
        Some(p) => r == Some(
            IpcCommand::PatternPercentage(side_vals(a.matrix, p).0, side_vals(a.matrix, p).1),
        ),
        None => if a.gradient {
            r == Some(
                IpcCommand::PatternGradient(lr_flags(a.matrix).0, lr_flags(a.matrix).1),
            )
        } else if a.double_gradient {
            r == Some(
                IpcCommand::PatternDoubleGradient(lr_flags(a.matrix).0, lr_flags(a.matrix).1),
            )
        } else if a.lotus_horizontal {
            r == Some(
                IpcCommand::PatternLotusHorizontal(lr_flags(a.matrix).0, lr_flags(a.matrix).1),
            )
        } else if a.lotus_vertical {
            r == Some(
                IpcCommand::PatternLotusVertical(lr_flags(a.matrix).0, lr_flags(a.matrix).1),
            )
        } else if a.zigzag {
            r == Some(IpcCommand::PatternZigzag(lr_flags(a.matrix).0, lr_flags(a.matrix).1))
        } else if a.fullbright {
            r == Some(
                IpcCommand::PatternFullbright(lr_flags(a.matrix).0, lr_flags(a.matrix).1),
            )
        } else if a.panic_text {
            r == Some(IpcCommand::PatternPanic(lr_flags(a.matrix).0, lr_flags(a.matrix).1))
        } else {
            r is None
        },
    }
}

/// The command each subcommand translates to, or `None` for subcommands
/// handled entirely client-side (listing ports, explaining exit codes) and
/// for a render that still needs its image file decoded.
pub open spec fn command_of(c: Commands, r: Option<IpcCommand>) -> bool {
    match c {
        Commands::List => r is None,
        Commands::Explain(_) => r is None,
        Commands::Render(a) => if a.file is Some {
            r is None
        } else {
            match a.raw {
                Some(raw) => r matches Some(cmd) && raw_render_cmd(a.matrix, raw@, cmd),
                None => r is None,
            }
        },
        Commands::Brightness(a) => match a.set {
            Some(b) => r == Some(
                IpcCommand::SetBrightness(side_vals(a.matrix, b).0, side_vals(a.matrix, b).1),
            ),
            None => if a.get {
                r == Some(
                    IpcCommand::GetBrightness(lr_flags(a.matrix).0, lr_flags(a.matrix).1),
                )
            } else {
                r is None
            },
        },
        Commands::Pattern(a) => pattern_cmd(a, r),
        Commands::Sleep(a) => match a.set {
            Some(s) => r == Some(
                IpcCommand::SetSleep(side_vals(a.matrix, s).0, side_vals(a.matrix, s).1),
            ),
            None => if a.get {
                r == Some(IpcCommand::GetSleep(lr_flags(a.matrix).0, lr_flags(a.matrix).1))
            } else {
                r is None
            },
        },
        Commands::Animate(a) => match a.set {
            Some(s) => r == Some(
                IpcCommand::SetAnimate(side_vals(a.matrix, s).0, side_vals(a.matrix, s).1),
            ),
            None => if a.get {
                r == Some(
                    IpcCommand::GetAnimate(lr_flags(a.matrix).0, lr_flags(a.matrix).1),
                )
            } else {
                r is None
            },
        },
        Commands::FlushCols(a) => r == Some(
            IpcCommand::FlushCols(lr_flags(a.matrix).0, lr_flags(a.matrix).1),
        ),
        Commands::Version(a) => r == Some(
            IpcCommand::Version(lr_flags(a.matrix).0, lr_flags(a.matrix).1),
        ),
        Commands::Bootloader(a) => r == Some(
            IpcCommand::Bootloader(lr_flags(a.matrix).0, lr_flags(a.matrix).1),
        ),
        Commands::Crash(a) => r == Some(
            IpcCommand::Crash(lr_flags(a.matrix).0, lr_flags(a.matrix).1),
        ),
        Commands::StageCol(a) => r matches Some(cmd) && stage_col_cmd(
            a.matrix,
            a.column,
            a.values@,
            cmd,
        ),
        Commands::DrawBW(a) => r matches Some(cmd) && drawbw_cmd(a.matrix, a.bitmap@, cmd),
    }
}

/// An exact copy of a byte vector.
fn copy_bytes(v: &Vec<u8>) -> (r: Vec<u8>)
    ensures
        r@ == v@,
{
    slice_to_vec(v.as_slice())
}

/// A frame-for-frame copy of a frame sequence.
fn copy_frames(frames: &Vec<(Vec<u8>, u64)>) -> (r: Vec<(Vec<u8>, u64)>)
    ensures
        frames_view_eq(r@, frames@),
{
    let mut r: Vec<(Vec<u8>, u64)> = Vec::new();
    let mut i: usize = 0;
    while i < frames.len()
        invariant
            i <= frames@.len(),
            r@.len() == i,
            forall|j: int|
                0 <= j < i ==> (#[trigger] r@[j]).0@ == frames@[j].0@ && r@[j].1 == frames@[j].1,
        decreases frames@.len() - i,
    {
        let pixels: Vec<u8> = copy_bytes(&frames[i].0);
        let millis: u64 = frames[i].1;
        r.push((pixels, millis));
        i = i + 1;
    }
    r
}

/// Wraps one raw frame as the render command for the chosen selector,
/// with a zero display duration.
pub fn render_raw_command(matrix: Matrix, raw: Vec<u8>) -> (r: IpcCommand)
    ensures
        raw_render_cmd(matrix, raw@, r),
{
    match matrix {
        Matrix::Left => {
            let mut fs: Vec<(Vec<u8>, u64)> = Vec::new();
            fs.push((raw, 0));
            IpcCommand::RenderSingle(Some(fs), None)
        },
        Matrix::Right => {
            let mut fs: Vec<(Vec<u8>, u64)> = Vec::new();
            fs.push((raw, 0));
            IpcCommand::RenderSingle(None, Some(fs))
        },
        Matrix::Both => {
            let copy: Vec<u8> = copy_bytes(&raw);
            let mut l: Vec<(Vec<u8>, u64)> = Vec::new();
            l.push((raw, 0));
            let mut rr: Vec<(Vec<u8>, u64)> = Vec::new();
            rr.push((copy, 0));
            IpcCommand::RenderSingle(Some(l), Some(rr))
        },
        Matrix::Pair => {
            let mut fs: Vec<(Vec<u8>, u64)> = Vec::new();
            fs.push((raw, 0));
            IpcCommand::RenderPair(fs)
        },
    }
}

/// Wraps a decoded frame sequence as the render command for the chosen
/// selector.
pub fn render_frames_command(matrix: Matrix, frames: Vec<(Vec<u8>, u64)>) -> (r: IpcCommand)
    ensures
        frames_render_cmd(matrix, frames@, r),
{
    match matrix {
        Matrix::Left => IpcCommand::RenderSingle(Some(frames), None),
        Matrix::Right => IpcCommand::RenderSingle(None, Some(frames)),
        Matrix::Both => {
            let copy: Vec<(Vec<u8>, u64)> = copy_frames(&frames);
            IpcCommand::RenderSingle(Some(frames), Some(copy))
        },
        Matrix::Pair => IpcCommand::RenderPair(frames),
    }
}

/// Builds the stage-column command, routing pair-relative columns to the
/// correct device: columns `0..=8` go to the left device unchanged,
/// columns `9..=17` go to the right device at the index minus nine.
pub fn stage_col_command(matrix: Matrix, column: u8, values: Vec<u8>) -> (r: IpcCommand)
    requires
        column <= 17,
    ensures
        stage_col_cmd(matrix, column, values@, r),
{
    match matrix {
        Matrix::Left => IpcCommand::StageCol(Some((column, values)), None),
        Matrix::Right => IpcCommand::StageCol(None, Some((column, values))),
        Matrix::Both => {
            let copy: Vec<u8> = copy_bytes(&values);
            IpcCommand::StageCol(Some((column, values)), Some((column, copy)))
        },
        Matrix::Pair => {
            if column <= 8 {
                IpcCommand::StageCol(Some((column, values)), None)
            } else {
                IpcCommand::StageCol(None, Some((column - 9, values)))
            }
        },
    }
}

/// Translates one parsed subcommand into the IPC command it stands for,
/// or `None` where nothing is sent: listing ports, explaining an exit
/// code, or a render whose image file is decoded separately and then
/// wrapped by [`render_frames_command`].
pub fn to_command(command: Commands) -> (r: Option<IpcCommand>)
    requires
        command matches Commands::StageCol(a) ==> a.column <= 17,
    ensures
        command_of(command, r),
{
    match command {
        Commands::List => None,
        Commands::Explain(_) => None,
        Commands::Render(a) => {
            if a.file.is_some() {
                None
            } else {
                match a.raw {
                    Some(raw) => Some(render_raw_command(a.matrix, raw)),
                    None => None,
                }
            }
        },
        Commands::Brightness(a) => {
            match a.set {
                Some(b) => {
                    match a.matrix {
                        MatrixNoPair::Left => Some(IpcCommand::SetBrightness(Some(b), None)),
                        MatrixNoPair::Right => Some(IpcCommand::SetBrightness(None, Some(b))),
                        MatrixNoPair::Both => Some(IpcCommand::SetBrightness(Some(b), Some(b))),
                    }
                },
                None => {
                    if a.get {
                        match a.matrix {
                            MatrixNoPair::Left => Some(IpcCommand::GetBrightness(true, false)),
                            MatrixNoPair::Right => Some(IpcCommand::GetBrightness(false, true)),
                            MatrixNoPair::Both => Some(IpcCommand::GetBrightness(true, true)),
                        }
                    } else {
                        None
                    }
                },
            }
        },
        Commands::Pattern(a) => {
            match a.percentage {
                Some(p) => {
                    match a.matrix {
                        MatrixNoPair::Left => Some(IpcCommand::PatternPercentage(Some(p), None)),
                        MatrixNoPair::Right => Some(IpcCommand::PatternPercentage(None, Some(p))),
                        MatrixNoPair::Both => Some(
                            IpcCommand::PatternPercentage(Some(p), Some(p)),
                        ),
                    }
                },
                None => {
                    let flags: (bool, bool) = match a.matrix {
                        MatrixNoPair::Left => (true, false),
                        MatrixNoPair::Right => (false, true),
                        MatrixNoPair::Both => (true, true),
                    };
                    if a.gradient {
                        Some(IpcCommand::PatternGradient(flags.0, flags.1))
                    } else if a.double_gradient {
                        Some(IpcCommand::PatternDoubleGradient(flags.0, flags.1))
                    } else if a.lotus_horizontal {
                        Some(IpcCommand::PatternLotusHorizontal(flags.0, flags.1))
                    } else if a.lotus_vertical {
                        Some(IpcCommand::PatternLotusVertical(flags.0, flags.1))
                    } else if a.zigzag {
                        Some(IpcCommand::PatternZigzag(flags.0, flags.1))
                    } else if a.fullbright {
                        Some(IpcCommand::PatternFullbright(flags.0, flags.1))
                    } else if a.panic_text {
                        Some(IpcCommand::PatternPanic(flags.0, flags.1))
                    } else {
                        None
                    }
                },
            }
        },
        Commands::Sleep(a) => {
            match a.set {
                Some(s) => {
                    match a.matrix {
                        MatrixNoPair::Left => Some(IpcCommand::SetSleep(Some(s), None)),
                        MatrixNoPair::Right => Some(IpcCommand::SetSleep(None, Some(s))),
                        MatrixNoPair::Both => Some(IpcCommand::SetSleep(Some(s), Some(s))),
                    }
                },
                None => {
                    if a.get {
                        match a.matrix {
                            MatrixNoPair::Left => Some(IpcCommand::GetSleep(true, false)),
                            MatrixNoPair::Right => Some(IpcCommand::GetSleep(false, true)),
                            MatrixNoPair::Both => Some(IpcCommand::GetSleep(true, true)),
                        }
                    } else {
                        None
                    }
                },
            }
        },
        Commands::Animate(a) => {
            match a.set {
                Some(s) => {
                    match a.matrix {
                        MatrixNoPair::Left => Some(IpcCommand::SetAnimate(Some(s), None)),
                        MatrixNoPair::Right => Some(IpcCommand::SetAnimate(None, Some(s))),
                        MatrixNoPair::Both => Some(IpcCommand::SetAnimate(Some(s), Some(s))),
                    }
                },
                None => {
                    if a.get {
                        match a.matrix {
                            MatrixNoPair::Left => Some(IpcCommand::GetAnimate(true, false)),
                            MatrixNoPair::Right => Some(IpcCommand::GetAnimate(false, true)),
                            MatrixNoPair::Both => Some(IpcCommand::GetAnimate(true, true)),
                        }
                    } else {
                        None
                    }
                },
            }
        },
        Commands::FlushCols(a) => {
            match a.matrix {
                MatrixNoPair::Left => Some(IpcCommand::FlushCols(true, false)),
                MatrixNoPair::Right => Some(IpcCommand::FlushCols(false, true)),
                MatrixNoPair::Both => Some(IpcCommand::FlushCols(true, true)),
            }
        },
        Commands::Version(a) => {
            match a.matrix {
                MatrixNoPair::Left => Some(IpcCommand::Version(true, false)),
                MatrixNoPair::Right => Some(IpcCommand::Version(false, true)),
                MatrixNoPair::Both => Some(IpcCommand::Version(true, true)),
            }
        },
        Commands::Bootloader(a) => {
            match a.matrix {
                MatrixNoPair::Left => Some(IpcCommand::Bootloader(true, false)),
                MatrixNoPair::Right => Some(IpcCommand::Bootloader(false, true)),
                MatrixNoPair::Both => Some(IpcCommand::Bootloader(true, true)),
            }
        },
        Commands::Crash(a) => {
            match a.matrix {
                MatrixNoPair::Left => Some(IpcCommand::Crash(true, false)),
                MatrixNoPair::Right => Some(IpcCommand::Crash(false, true)),
                MatrixNoPair::Both => Some(IpcCommand::Crash(true, true)),
            }
        },
        Commands::StageCol(a) => Some(stage_col_command(a.matrix, a.column, a.values)),
        Commands::DrawBW(a) => {
            match a.matrix {
                MatrixNoPair::Left => Some(IpcCommand::DrawBW(Some(a.bitmap), None)),
                MatrixNoPair::Right => Some(IpcCommand::DrawBW(None, Some(a.bitmap))),
                MatrixNoPair::Both => {
                    let copy: Vec<u8> = copy_bytes(&a.bitmap);
                    Some(IpcCommand::DrawBW(Some(a.bitmap), Some(copy)))
                },
            }
        },
    }
}

} // verus!
