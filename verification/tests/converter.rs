use wlgif::converter::{after_pass, to_gif, CommandArg, ConversionStep, FfmpegPass};
use wlgif::error::Error;

fn render(args: &[CommandArg]) -> Vec<String> {
    args.iter()
        .map(|a| match a {
            CommandArg::Text(s) => s.clone(),
            CommandArg::InputFile => "<in>".to_string(),
            CommandArg::OutputFile => "<out>".to_string(),
            CommandArg::PaletteFile => "<palette>".to_string(),
        })
        .collect()
}

fn pass(p: &FfmpegPass) -> (Option<String>, Vec<String>, String, String) {
    (p.note.clone(), render(&p.args), p.spawn_context.clone(), p.failure.clone())
}

#[test]
fn optimized_plan_uses_a_palette() {
    let plan = to_gif(15, None, true);
    assert_eq!(plan.announce, "Converting to GIF...");
    assert!(plan.needs_palette);
    assert_eq!(plan.passes.len(), 2);
    assert_eq!(
        pass(&plan.passes[0]),
        (
            Some("Generating optimal palette...".to_string()),
            vec![
                "-y", "-i", "<in>", "-vf",
                "fps=15,scale=trunc(iw/2)*2:trunc(ih/2)*2[x];[x]palettegen=stats_mode=diff",
                "<palette>",
            ]
            .into_iter()
            .map(String::from)
            .collect(),
            "ffmpeg palette generation failed".to_string(),
            "palette generation failed".to_string(),
        )
    );
    assert_eq!(
        pass(&plan.passes[1]),
        (
            Some("Encoding GIF...".to_string()),
            vec![
                "-y", "-i", "<in>", "-i", "<palette>", "-lavfi",
                "fps=15,scale=trunc(iw/2)*2:trunc(ih/2)*2[x];[x][1:v]paletteuse=dither=floyd_steinberg",
                "<out>",
            ]
            .into_iter()
            .map(String::from)
            .collect(),
            "ffmpeg GIF encoding failed".to_string(),
            "GIF encoding failed".to_string(),
        )
    );
}

#[test]
fn fast_plan_is_one_pass_with_width() {
    let plan = to_gif(30, Some(640), false);
    assert!(!plan.needs_palette);
    assert_eq!(plan.passes.len(), 1);
    assert_eq!(
        pass(&plan.passes[0]),
        (
            None,
            vec!["-y", "-i", "<in>", "-vf", "fps=30,scale=640:-1:flags=lanczos", "<out>"]
                .into_iter()
                .map(String::from)
                .collect(),
            "ffmpeg conversion failed".to_string(),
            "conversion failed".to_string(),
        )
    );
}

#[test]
fn filter_numbers_are_decimal() {
    let plan = to_gif(0, Some(4294967295), false);
    let args = render(&plan.passes[0].args);
    assert_eq!(args[4], "fps=0,scale=4294967295:-1:flags=lanczos");
}

#[test]
fn a_failed_pass_ends_the_conversion() {
    let plan = to_gif(15, None, true);
    assert!(matches!(after_pass(&plan, 0, true), ConversionStep::RunNext(1)));
    assert!(matches!(after_pass(&plan, 1, true), ConversionStep::Done));
    match after_pass(&plan, 0, false) {
        ConversionStep::Failed(Error::Conversion(m)) => assert_eq!(m, "palette generation failed"),
        other => panic!("unexpected {:?}", other),
    }
    match after_pass(&plan, 1, false) {
        ConversionStep::Failed(Error::Conversion(m)) => assert_eq!(m, "GIF encoding failed"),
        other => panic!("unexpected {:?}", other),
    }
    let fast = to_gif(15, None, false);
    assert!(matches!(after_pass(&fast, 0, true), ConversionStep::Done));
    match after_pass(&fast, 0, false) {
        ConversionStep::Failed(Error::Conversion(m)) => assert_eq!(m, "conversion failed"),
        other => panic!("unexpected {:?}", other),
    }
}
