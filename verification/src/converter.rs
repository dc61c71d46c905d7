use vstd::prelude::*;

use crate::error::Error;
use crate::text::{dec, push_decimal};

verus! {

broadcast use vstd::string::group_string_axioms;

/// One argument of an external command: literal text, or one of the files
/// that the caller knows by path.
pub enum CommandArg {
    Text(String),
    /// The recorded video.
    InputFile,
    /// The file to write.
    OutputFile,
    /// The palette image in the temporary directory.
    PaletteFile,
}

/// What a `CommandArg` stands for.
pub enum ArgView {
    Text(Seq<char>),
    InputFile,
    OutputFile,
    PaletteFile,
}

impl View for CommandArg {
    type V = ArgView;

    open spec fn view(&self) -> ArgView {
        match self {
            CommandArg::Text(s) => ArgView::Text(s@),
            CommandArg::InputFile => ArgView::InputFile,
            CommandArg::OutputFile => ArgView::OutputFile,
            CommandArg::PaletteFile => ArgView::PaletteFile,
        }
    }
}

/// The views of a list of arguments.
pub open spec fn arg_views(args: Seq<CommandArg>) -> Seq<ArgView> {
    args.map_values(|a: CommandArg| a@)
}

/// One run of ffmpeg.
pub struct FfmpegPass {
    /// Shown before the run unless quiet.
    pub note: Option<String>,
    /// The arguments after the program name.
    pub args: Vec<CommandArg>,
    /// Why the run failed when ffmpeg could not be started.
    pub spawn_context: String,
    /// The detail of the conversion error when ffmpeg exits unsuccessfully.
    pub failure: String,
}

/// What an `FfmpegPass` holds.
pub struct PassView {
    pub note: Option<Seq<char>>,
    pub args: Seq<ArgView>,
    pub spawn_context: Seq<char>,
    pub failure: Seq<char>,
}

impl View for FfmpegPass {
    type V = PassView;

    open spec fn view(&self) -> PassView {
        PassView {
            note: match self.note {
                Some(n) => Some(n@),
                None => None,
            },
            args: arg_views(self.args@),
            spawn_context: self.spawn_context@,
            failure: self.failure@,
        }
    }
}

/// How a video becomes a GIF: the message shown first, whether a palette
/// file in a temporary directory is needed, and the ffmpeg runs, in order.
pub struct GifPlan {
    pub announce: String,
    pub needs_palette: bool,
    pub passes: Vec<FfmpegPass>,
}

/// The scaling part of the filter: to `width` pixels wide keeping the aspect
/// ratio, or else to even dimensions.
pub open spec fn scale_filter(width: Option<u32>) -> Seq<char> {
    match width {
        Some(w) => "scale="@ + dec(w as nat) + ":-1:flags=lanczos"@,
        None => "scale=trunc(iw/2)*2:trunc(ih/2)*2"@,
    }
}

/// The filter that every pass applies first: the frame rate, then scaling.
pub open spec fn base_filter(fps: u32, width: Option<u32>) -> Seq<char> {
    "fps="@ + dec(fps as nat) + ","@ + scale_filter(width)
}

/// A literal argument.
pub(crate) fn text(s: &str) -> (a: CommandArg)
    ensures
        a@ == ArgView::Text(s@),
{
    CommandArg::Text(String::from_str(s))
}

/// The passes: with `optimize`, a palette pass and then an encoding pass
/// that applies the palette with Floyd-Steinberg dithering; without, one
/// direct pass.
pub open spec fn gif_passes(fps: u32, width: Option<u32>, optimize: bool) -> Seq<PassView> {
    let base = base_filter(fps, width);
    if optimize {
        seq![
            PassView {
                note: Some("Generating optimal palette..."@),
                args: seq![
                    ArgView::Text("-y"@),
                    ArgView::Text("-i"@),
                    ArgView::InputFile,
                    ArgView::Text("-vf"@),
                    ArgView::Text(base + "[x];[x]palettegen=stats_mode=diff"@),
                    ArgView::PaletteFile,
                ],
                spawn_context: "ffmpeg palette generation failed"@,
                failure: "palette generation failed"@,
            },
            PassView {
                note: Some("Encoding GIF..."@),
                args: seq![
                    ArgView::Text("-y"@),
                    ArgView::Text("-i"@),
                    ArgView::InputFile,
                    ArgView::Text("-i"@),
                    ArgView::PaletteFile,
                    ArgView::Text("-lavfi"@),
                    ArgView::Text(base + "[x];[x][1:v]paletteuse=dither=floyd_steinberg"@),
                    ArgView::OutputFile,
                ],
                spawn_context: "ffmpeg GIF encoding failed"@,
                failure: "GIF encoding failed"@,
            },
        ]
    } else {
        seq![
            PassView {
                note: None,
                args: seq![
                    ArgView::Text("-y"@),
                    ArgView::Text("-i"@),
                    ArgView::InputFile,
                    ArgView::Text("-vf"@),
                    ArgView::Text(base),
                    ArgView::OutputFile,
                ],
                spawn_context: "ffmpeg conversion failed"@,
                failure: "conversion failed"@,
            },
        ]
    }
}

/// Some argument of `args` is text that begins with `prefix`.
pub open spec fn has_text_arg_with_prefix(args: Seq<ArgView>, prefix: Seq<char>) -> bool {
    exists|j: int|
        0 <= j < args.len() && (#[trigger] args[j] matches ArgView::Text(t) && prefix.len()
            <= t.len() && t.subrange(0, prefix.len() as int) == prefix)
}

/// Every ffmpeg run filters at the requested frame rate and then scales to
/// the requested width (keeping the aspect ratio), or to even dimensions
/// when no width was asked for, whether the palette is optimised or not.
pub proof fn lemma_every_pass_keeps_rate_and_width(fps: u32, width: Option<u32>, optimize: bool)
    ensures
        forall|i: int|
            0 <= i < gif_passes(fps, width, optimize).len() ==> has_text_arg_with_prefix(
                #[trigger] gif_passes(fps, width, optimize)[i].args,
                "fps="@ + dec(fps as nat) + ","@ + match width {
                    Some(w) => "scale="@ + dec(w as nat) + ":-1:flags=lanczos"@,
                    None => "scale=trunc(iw/2)*2:trunc(ih/2)*2"@,
                },
            ),
{
    let prefix = "fps="@ + dec(fps as nat) + ","@ + match width {
        Some(w) => "scale="@ + dec(w as nat) + ":-1:flags=lanczos"@,
        None => "scale=trunc(iw/2)*2:trunc(ih/2)*2"@,
    };
    let base = base_filter(fps, width);
    assert(base == prefix);
    let passes = gif_passes(fps, width, optimize);
    let gen = base + "[x];[x]palettegen=stats_mode=diff"@;
    let apply = base + "[x];[x][1:v]paletteuse=dither=floyd_steinberg"@;
    assert(gen.subrange(0, prefix.len() as int) =~= prefix);
    assert(apply.subrange(0, prefix.len() as int) =~= prefix);
    assert(base.subrange(0, prefix.len() as int) =~= prefix);
    if optimize {
        assert(passes[0].args[4] == ArgView::Text(gen));
        assert(has_text_arg_with_prefix(passes[0].args, prefix));
        assert(passes[1].args[6] == ArgView::Text(apply));
        assert(has_text_arg_with_prefix(passes[1].args, prefix));
    } else {
        assert(passes[0].args[4] == ArgView::Text(base));
        assert(has_text_arg_with_prefix(passes[0].args, prefix));
    }
}

/// The base filter text.
fn base_filter_string(fps: u32, width: Option<u32>) -> (s: String)
    ensures
        s@ == base_filter(fps, width),
{
    let mut s = String::from_str("fps=");
    push_decimal(&mut s, fps as u64);
    s.append(",");
    match width {
        Some(w) => {
            s.append("scale=");
            push_decimal(&mut s, w as u64);
            s.append(":-1:flags=lanczos");
        },
        None => {
            s.append("scale=trunc(iw/2)*2:trunc(ih/2)*2");
        },
    }
    s
}

/// Convert a video file to an optimized GIF: the plan of ffmpeg runs that
/// does it.
pub fn to_gif(fps: u32, width: Option<u32>, optimize: bool) -> (plan: GifPlan)
    ensures
        plan.announce@ == "Converting to GIF..."@,
        plan.needs_palette == optimize,
        plan.passes@.map_values(|p: FfmpegPass| p@) == gif_passes(fps, width, optimize),
        forall|i: int|
            0 <= i < plan.passes@.len() ==> has_text_arg_with_prefix(
                #[trigger] plan.passes@[i]@.args,
                "fps="@ + dec(fps as nat) + ","@ + match width {
                    Some(w) => "scale="@ + dec(w as nat) + ":-1:flags=lanczos"@,
                    None => "scale=trunc(iw/2)*2:trunc(ih/2)*2"@,
                },
            ),
{
    proof {
        lemma_every_pass_keeps_rate_and_width(fps, width, optimize);
    }
    let base = base_filter_string(fps, width);
    let mut passes: Vec<FfmpegPass> = Vec::new();
    if optimize {
        let mut gen = base.clone();
        gen.append("[x];[x]palettegen=stats_mode=diff");
        let mut use_palette = base.clone();
        use_palette.append("[x];[x][1:v]paletteuse=dither=floyd_steinberg");
        let args1 = vec![
            text("-y"),
            text("-i"),
            CommandArg::InputFile,
            text("-vf"),
            CommandArg::Text(gen),
            CommandArg::PaletteFile,
        ];
        let args2 = vec![
            text("-y"),
            text("-i"),
            CommandArg::InputFile,
            text("-i"),
            CommandArg::PaletteFile,
            text("-lavfi"),
            CommandArg::Text(use_palette),
            CommandArg::OutputFile,
        ];
        assert(arg_views(args1@) =~= gif_passes(fps, width, optimize)[0].args);
        assert(arg_views(args2@) =~= gif_passes(fps, width, optimize)[1].args);
        passes.push(
            FfmpegPass {
                note: Some(String::from_str("Generating optimal palette...")),
                args: args1,
                spawn_context: String::from_str("ffmpeg palette generation failed"),
                failure: String::from_str("palette generation failed"),
            },
        );
        passes.push(
            FfmpegPass {
                note: Some(String::from_str("Encoding GIF...")),
                args: args2,
                spawn_context: String::from_str("ffmpeg GIF encoding failed"),
                failure: String::from_str("GIF encoding failed"),
            },
        );
    } else {
        let args = vec![
            text("-y"),
            text("-i"),
            CommandArg::InputFile,
            text("-vf"),
            CommandArg::Text(base),
            CommandArg::OutputFile,
        ];
        assert(arg_views(args@) =~= gif_passes(fps, width, optimize)[0].args);
        passes.push(
            FfmpegPass {
                note: None,
                args,
                spawn_context: String::from_str("ffmpeg conversion failed"),
                failure: String::from_str("conversion failed"),
            },
        );
    }
    assert(passes@.map_values(|p: FfmpegPass| p@) =~= gif_passes(fps, width, optimize));
    GifPlan { announce: String::from_str("Converting to GIF..."), needs_palette: optimize, passes }
}

/// What happens after one ffmpeg run of a plan.
#[derive(Debug)]
pub enum ConversionStep {
    /// Run the pass with this index next.
    RunNext(usize),
    /// Every pass succeeded: the GIF is written.
    Done,
    /// The pass failed: the conversion stops with this error.
    Failed(Error),
}

/// After pass `index` of the plan exited (`success`): a failed pass ends the
/// conversion with `Error::Conversion` of that pass's failure text; a
/// successful one leads to the next pass, or after the last one to `Done`.
pub fn after_pass(plan: &GifPlan, index: usize, success: bool) -> (step: ConversionStep)
    requires
        index < plan.passes@.len(),
    ensures
        !success ==> (step matches ConversionStep::Failed(Error::Conversion(m)) && m@
            == plan.passes@[index as int].failure@),
        success && index + 1 < plan.passes@.len() ==> (step matches ConversionStep::RunNext(i) && i
            == index + 1),
        success && index + 1 == plan.passes@.len() ==> step matches ConversionStep::Done,
{
    if !success {
        return ConversionStep::Failed(Error::Conversion(plan.passes[index].failure.clone()));
    }
    if index < plan.passes.len() - 1 {
        ConversionStep::RunNext(index + 1)
    } else {
        ConversionStep::Done
    }
}

} // verus!
