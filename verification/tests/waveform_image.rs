use media_toc::waveform_image::{AudioBufferBounds, RenderAction, WaveformImage};

fn buffer(lower: usize, upper: usize) -> AudioBufferBounds {
    AudioBufferBounds {
        lower,
        upper,
        segment_lower: lower,
        eos: false,
    }
}

fn ready_image(width: i32) -> WaveformImage {
    let mut image = WaveformImage::new(1);
    image.update_dimensions(width, 100);
    image.update_sample_step(true, 1, 1);
    assert!(image.is_ready());
    image
}

#[test]
fn first_render_redraws_everything() {
    let mut image = ready_image(250);
    let plan = image.plan_render(buffer(100, 200), 100, 200);
    assert_eq!(
        RenderAction::Redraw {
            lower: 100,
            upper: 200
        },
        plan.action
    );
    assert!(plan.new_surfaces);
    image.complete_redraw(true, 100, 200);
    assert_eq!((100, 200), (image.lower, image.upper));
    assert!(!image.force_redraw);
}

#[test]
fn additive_render_appends() {
    let mut image = ready_image(250);
    image.plan_render(buffer(100, 200), 100, 200);
    image.complete_redraw(true, 100, 200);

    // samples already drawn: nothing to do
    let plan = image.plan_render(buffer(100, 200), 120, 180);
    assert_eq!(RenderAction::Nothing, plan.action);

    // new samples on the left
    let plan = image.plan_render(buffer(50, 200), 50, 200);
    assert_eq!(RenderAction::AppendLeft { lower: 50 }, plan.action);

    // new samples on the right
    let plan = image.plan_render(buffer(100, 250), 100, 250);
    assert_eq!(
        RenderAction::AppendRight {
            lower: 100,
            upper: 250
        },
        plan.action
    );
}

#[test]
fn seek_far_away_redraws() {
    let mut image = ready_image(300);
    image.plan_render(buffer(0, 100), 0, 100);
    image.complete_redraw(true, 0, 100);
    let plan = image.plan_render(buffer(500, 600), 500, 600);
    assert_eq!(
        RenderAction::Redraw {
            lower: 500,
            upper: 600
        },
        plan.action
    );
}

#[test]
fn empty_range_clears() {
    let mut image = ready_image(300);
    let plan = image.plan_render(buffer(100, 100), 100, 100);
    assert_eq!(RenderAction::Cleared, plan.action);
    assert!(!image.is_ready());
    assert_eq!((0, 0), (image.lower, image.upper));
}

#[test]
fn too_few_samples_do_nothing() {
    let mut image = ready_image(300);
    let plan = image.plan_render(buffer(100, 101), 100, 101);
    assert_eq!(RenderAction::Nothing, plan.action);
}
