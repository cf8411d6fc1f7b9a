use mandelbrot::command::{dispatch, Command, Outcome};
use mandelbrot::viewport::{
    Viewport, DEFAULT_CANVAS_SIZE, DEFAULT_MAGNIFICATION, DEFAULT_MAX_ITERATIONS,
    DEFAULT_ZOOM_LEVEL, FRAME_INTERVAL_NANOS, MAGNIFICATION_STEP, PAN_STEP, UNITS_PER_ONE,
};

fn after(commands: &[Command]) -> Viewport {
    let mut viewport = Viewport::default();
    for command in commands {
        viewport.apply(*command);
    }
    viewport
}

#[test]
fn startup_view() {
    let viewport = Viewport::default();
    assert_eq!(
        viewport,
        Viewport {
            canvas_size: 800,
            max_iterations: 60,
            magnification: 800,
            pan_x: 0,
            pan_y: 0,
            zoom_level: 1,
        }
    );
    assert!(viewport.is_valid());
}

#[test]
fn startup_parameters() {
    assert_eq!(DEFAULT_CANVAS_SIZE, 800);
    assert_eq!(DEFAULT_MAX_ITERATIONS, 60);
    assert_eq!(DEFAULT_MAGNIFICATION, 800);
    assert_eq!(DEFAULT_ZOOM_LEVEL, 1);
    assert_eq!(MAGNIFICATION_STEP, 100);
    assert_eq!(PAN_STEP as f64 / UNITS_PER_ONE as f64, 0.05);
    assert_eq!(FRAME_INTERVAL_NANOS, 16_666_666);
}

#[test]
fn pan_commands_move_by_one_step() {
    assert_eq!(after(&[Command::PanLeft]).pan_x, 50_000_000_000);
    assert_eq!(after(&[Command::PanRight]).pan_x, -50_000_000_000);
    assert_eq!(after(&[Command::PanUp]).pan_y, 50_000_000_000);
    assert_eq!(after(&[Command::PanDown]).pan_y, -50_000_000_000);
    assert_eq!(after(&[Command::PanLeft]).pan_y, 0);
    assert_eq!(after(&[Command::PanUp]).pan_x, 0);
    assert_eq!(after(&[Command::PanLeft, Command::PanLeft, Command::PanLeft]).pan_x, 150_000_000_000);
}

#[test]
fn pan_step_shrinks_with_the_zoom_level() {
    assert_eq!(after(&[Command::ZoomIn, Command::PanLeft]).pan_x, 25_000_000_000);
    assert_eq!(
        after(&[Command::ZoomIn, Command::ZoomIn, Command::PanDown]).pan_y,
        -16_666_666_666
    );
    assert_eq!(
        after(&[Command::PanLeft, Command::ZoomIn, Command::PanLeft]).pan_x,
        75_000_000_000
    );
}

#[test]
fn pan_leaves_the_rest_alone() {
    let viewport = after(&[Command::ZoomIn, Command::PanLeft, Command::PanUp]);
    assert_eq!(viewport.canvas_size, 800);
    assert_eq!(viewport.max_iterations, 60);
    assert_eq!(viewport.magnification, 900);
    assert_eq!(viewport.zoom_level, 2);
}

#[test]
fn zoom_in_adds_a_step() {
    let viewport = after(&[Command::ZoomIn]);
    assert_eq!(viewport.magnification, 900);
    assert_eq!(viewport.zoom_level, 2);
    assert_eq!((viewport.pan_x, viewport.pan_y), (0, 0));
    let viewport = after(&[Command::ZoomIn, Command::ZoomIn, Command::ZoomIn]);
    assert_eq!(viewport.magnification, 1100);
    assert_eq!(viewport.zoom_level, 4);
}

#[test]
fn zoom_out_takes_a_step() {
    let viewport = after(&[Command::ZoomIn, Command::ZoomIn, Command::ZoomOut]);
    assert_eq!(viewport.magnification, 900);
    assert_eq!(viewport.zoom_level, 2);
}

#[test]
fn zoom_out_at_level_one_is_dropped() {
    assert_eq!(after(&[Command::ZoomOut]), Viewport::default());
    assert_eq!(after(&[Command::ZoomIn, Command::ZoomOut, Command::ZoomOut]), Viewport::default());
    assert!(after(&[Command::ZoomOut, Command::ZoomOut]).is_valid());
}

#[test]
fn zoom_out_never_leaves_the_magnification_at_zero() {
    let mut viewport = Viewport { magnification: 100, zoom_level: 5, ..Viewport::default() };
    let before = viewport;
    viewport.apply(Command::ZoomOut);
    assert_eq!(viewport, before);
    let mut viewport = Viewport { magnification: 101, zoom_level: 5, ..Viewport::default() };
    viewport.apply(Command::ZoomOut);
    assert_eq!(viewport.magnification, 1);
    assert_eq!(viewport.zoom_level, 4);
}

#[test]
fn zoom_in_at_the_limit_is_dropped() {
    let mut viewport = Viewport { magnification: u64::MAX - 99, ..Viewport::default() };
    let before = viewport;
    viewport.apply(Command::ZoomIn);
    assert_eq!(viewport, before);
    let mut viewport = Viewport { zoom_level: u64::MAX, ..Viewport::default() };
    let before = viewport;
    viewport.apply(Command::ZoomIn);
    assert_eq!(viewport, before);
    let mut viewport = Viewport { magnification: u64::MAX - 100, ..Viewport::default() };
    viewport.apply(Command::ZoomIn);
    assert_eq!(viewport.magnification, u64::MAX);
    assert_eq!(viewport.zoom_level, 2);
}

#[test]
fn pan_beyond_the_range_is_dropped() {
    let mut viewport = Viewport { pan_x: i64::MAX, pan_y: i64::MIN, ..Viewport::default() };
    let before = viewport;
    viewport.apply(Command::PanLeft);
    assert_eq!(viewport, before);
    viewport.apply(Command::PanDown);
    assert_eq!(viewport, before);
    viewport.apply(Command::PanRight);
    assert_eq!(viewport.pan_x, i64::MAX - 50_000_000_000);
    viewport.apply(Command::PanUp);
    assert_eq!(viewport.pan_y, i64::MIN + 50_000_000_000);
}

#[test]
fn pan_at_zoom_level_zero_is_dropped() {
    let mut viewport = Viewport { zoom_level: 0, ..Viewport::default() };
    let before = viewport;
    assert!(!viewport.is_valid());
    for command in [Command::PanLeft, Command::PanRight, Command::PanUp, Command::PanDown] {
        viewport.apply(command);
        assert_eq!(viewport, before);
    }
}

#[test]
fn pan_step_is_zero_at_huge_zoom_levels() {
    let mut viewport = Viewport { zoom_level: 50_000_000_001, ..Viewport::default() };
    viewport.apply(Command::PanLeft);
    assert_eq!(viewport.pan_x, 0);
    let mut viewport = Viewport { zoom_level: 50_000_000_000, ..Viewport::default() };
    viewport.apply(Command::PanLeft);
    assert_eq!(viewport.pan_x, 1);
}

#[test]
fn quit_changes_nothing() {
    let before = after(&[Command::ZoomIn, Command::PanLeft]);
    let mut viewport = before;
    viewport.apply(Command::Quit);
    assert_eq!(viewport, before);
}

#[test]
fn reset_restores_the_startup_view() {
    let mut viewport = after(&[
        Command::ZoomIn,
        Command::PanLeft,
        Command::PanUp,
        Command::ZoomIn,
        Command::PanRight,
    ]);
    assert_ne!(viewport, Viewport::default());
    viewport.apply(Command::Reset);
    assert_eq!(viewport, Viewport::default());
    assert_eq!((viewport.pan_x, viewport.pan_y), (0, 0));
    assert_eq!(viewport.magnification, 800);
    assert_eq!(viewport.zoom_level, 1);
    viewport.apply(Command::Reset);
    assert_eq!(viewport, Viewport::default());
}

#[test]
fn reset_restores_an_invalid_view() {
    let mut viewport = Viewport {
        canvas_size: 3,
        max_iterations: 0,
        magnification: 0,
        pan_x: -7,
        pan_y: i64::MAX,
        zoom_level: 0,
    };
    viewport.apply(Command::Reset);
    assert_eq!(viewport, Viewport::default());
}

#[test]
fn pan_left_then_right_returns() {
    for zooms in 0..12 {
        let mut viewport = Viewport::default();
        for _ in 0..zooms {
            viewport.apply(Command::ZoomIn);
        }
        viewport.apply(Command::PanUp);
        let before = viewport;
        viewport.apply(Command::PanLeft);
        assert_ne!(viewport, before);
        viewport.apply(Command::PanRight);
        assert_eq!(viewport, before);
        viewport.apply(Command::PanDown);
        viewport.apply(Command::PanUp);
        assert_eq!(viewport, before);
    }
}

#[test]
fn zoom_in_then_out_returns() {
    let before = after(&[Command::ZoomIn, Command::PanLeft]);
    let mut viewport = before;
    viewport.apply(Command::ZoomIn);
    viewport.apply(Command::ZoomOut);
    assert_eq!(viewport, before);
    viewport.apply(Command::ZoomOut);
    viewport.apply(Command::ZoomIn);
    assert_eq!(viewport, before);
}

#[test]
fn commands_keep_a_valid_view_valid() {
    let all = [
        Command::Quit,
        Command::PanLeft,
        Command::PanRight,
        Command::PanUp,
        Command::PanDown,
        Command::ZoomIn,
        Command::ZoomOut,
        Command::Reset,
    ];
    let mut viewport = Viewport::default();
    for round in 0..200usize {
        viewport.apply(all[(round * 7 + round / 3) % all.len()]);
        assert!(viewport.is_valid());
    }
}

#[test]
fn dispatch_applies_a_batch_in_order() {
    let mut viewport = Viewport::default();
    let outcome = dispatch(
        &mut viewport,
        &vec![Command::PanLeft, Command::ZoomIn, Command::PanLeft, Command::PanDown],
    );
    assert_eq!(outcome, Outcome { quit: false, palette_stale: false });
    assert_eq!(viewport.pan_x, 75_000_000_000);
    assert_eq!(viewport.pan_y, -25_000_000_000);
    assert_eq!(viewport.magnification, 900);
    assert_eq!(viewport.zoom_level, 2);
}

#[test]
fn dispatch_of_nothing_changes_nothing() {
    let mut viewport = after(&[Command::ZoomIn]);
    let outcome = dispatch(&mut viewport, &Vec::new());
    assert_eq!(outcome, Outcome { quit: false, palette_stale: false });
    assert_eq!(viewport, after(&[Command::ZoomIn]));
}

#[test]
fn dispatch_stops_at_the_first_quit() {
    let mut viewport = Viewport::default();
    let outcome = dispatch(
        &mut viewport,
        &vec![Command::ZoomIn, Command::Quit, Command::ZoomIn, Command::Reset, Command::Quit],
    );
    assert_eq!(outcome, Outcome { quit: true, palette_stale: false });
    assert_eq!(viewport, after(&[Command::ZoomIn]));
    let outcome = dispatch(&mut viewport, &vec![Command::Quit]);
    assert_eq!(outcome, Outcome { quit: true, palette_stale: false });
    assert_eq!(viewport, after(&[Command::ZoomIn]));
}

#[test]
fn dispatch_reports_a_reset() {
    let mut viewport = after(&[Command::ZoomIn]);
    let outcome = dispatch(&mut viewport, &vec![Command::PanLeft, Command::Reset, Command::PanUp]);
    assert_eq!(outcome, Outcome { quit: false, palette_stale: true });
    assert_eq!(viewport, after(&[Command::PanUp]));
    let outcome = dispatch(&mut viewport, &vec![Command::Reset, Command::Quit]);
    assert_eq!(outcome, Outcome { quit: true, palette_stale: true });
    assert_eq!(viewport, Viewport::default());
}

#[test]
fn pixel_count_is_the_square_of_the_canvas_size() {
    assert_eq!(Viewport::default().pixel_count(), Some(640_000));
    assert_eq!(Viewport { canvas_size: 0, ..Viewport::default() }.pixel_count(), Some(0));
    assert_eq!(Viewport { canvas_size: 1, ..Viewport::default() }.pixel_count(), Some(1));
    assert_eq!(Viewport { canvas_size: usize::MAX, ..Viewport::default() }.pixel_count(), None);
}

#[test]
fn startup_view_maps_pixels_to_the_plane() {
    let viewport = Viewport::default();
    assert_eq!(viewport.plane_point(0, 0), (0, 0));
    assert_eq!(viewport.plane_point(400, 400), (500_000_000_000, 500_000_000_000));
    assert_eq!(viewport.plane_point(800, 200), (1_000_000_000_000, 250_000_000_000));
    assert_eq!(viewport.plane_point(1, 3), (1_250_000_000, 3_750_000_000));
}

#[test]
fn pan_shifts_the_plane_point() {
    let viewport = after(&[Command::PanLeft, Command::PanDown, Command::PanDown]);
    assert_eq!(viewport.plane_point(0, 0), (-50_000_000_000, 100_000_000_000));
    assert_eq!(viewport.plane_point(400, 400), (450_000_000_000, 600_000_000_000));
}

#[test]
fn magnification_scales_the_plane_point() {
    let viewport = after(&[Command::ZoomIn]);
    assert_eq!(viewport.plane_point(900, 450), (1_000_000_000_000, 500_000_000_000));
    assert_eq!(viewport.plane_point(1, 2), (1_111_111_111, 2_222_222_222));
    let viewport = Viewport { magnification: 1, pan_x: i64::MIN, ..Viewport::default() };
    assert_eq!(
        viewport.plane_point(usize::MAX, 0),
        (
            usize::MAX as i128 * 1_000_000_000_000 + 9_223_372_036_854_775_808,
            0
        )
    );
}

#[test]
fn pixel_that_shows_the_origin_after_panning() {
    let mut viewport = Viewport::default();
    for _ in 0..10 {
        viewport.apply(Command::PanLeft);
        viewport.apply(Command::PanUp);
    }
    assert_eq!(viewport.plane_point(400, 400), (0, 0));
}
