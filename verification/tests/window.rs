use frame_prep::window::{Taper, WindowSite};
use frame_prep::window_site;
use frame_prep::FrameError;

#[test]
fn window_site_counts_down_the_columns_first() {
    assert_eq!(
        window_site(4, 8, 0),
        Ok(WindowSite {
            across: Taper::Sine { step: 0, last: 3 },
            down: Taper::Sine { step: 0, last: 7 },
        })
    );
    assert_eq!(
        window_site(4, 8, 1),
        Ok(WindowSite {
            across: Taper::Sine { step: 0, last: 3 },
            down: Taper::Sine { step: 1, last: 7 },
        })
    );
    assert_eq!(
        window_site(4, 8, 8),
        Ok(WindowSite {
            across: Taper::Sine { step: 1, last: 3 },
            down: Taper::Sine { step: 0, last: 7 },
        })
    );
    assert_eq!(
        window_site(4, 8, 31),
        Ok(WindowSite {
            across: Taper::Sine { step: 3, last: 3 },
            down: Taper::Sine { step: 7, last: 7 },
        })
    );
}

#[test]
fn window_site_follows_the_nested_walk() {
    let width: u32 = 5;
    let height: u32 = 3;
    let mut position = 0;
    for i in 0..width {
        for j in 0..height {
            assert_eq!(
                window_site(width, height, position),
                Ok(WindowSite {
                    across: Taper::Sine { step: i, last: width - 1 },
                    down: Taper::Sine { step: j, last: height - 1 },
                })
            );
            position += 1;
        }
    }
    assert_eq!(
        window_site(width, height, position),
        Err(FrameError::InvalidArgument)
    );
}

#[test]
fn window_site_rejects_positions_outside_the_frame() {
    assert_eq!(window_site(4, 8, 32), Err(FrameError::InvalidArgument));
    assert_eq!(window_site(4, 8, usize::MAX), Err(FrameError::InvalidArgument));
    assert_eq!(window_site(0, 8, 0), Err(FrameError::InvalidArgument));
    assert_eq!(window_site(4, 0, 0), Err(FrameError::InvalidArgument));
    assert_eq!(window_site(0, 0, 0), Err(FrameError::InvalidArgument));
}

#[test]
fn window_site_is_flat_along_a_single_sample() {
    assert_eq!(
        window_site(1, 4, 2),
        Ok(WindowSite {
            across: Taper::Flat,
            down: Taper::Sine { step: 2, last: 3 },
        })
    );
    assert_eq!(
        window_site(4, 1, 2),
        Ok(WindowSite {
            across: Taper::Sine { step: 2, last: 3 },
            down: Taper::Flat,
        })
    );
    assert_eq!(
        window_site(1, 1, 0),
        Ok(WindowSite {
            across: Taper::Flat,
            down: Taper::Flat,
        })
    );
}

#[test]
fn window_site_steps_stay_between_the_borders() {
    for width in 2..7u32 {
        for height in 2..7u32 {
            for position in 0..(width * height) as usize {
                let site = window_site(width, height, position).unwrap();
                match (site.across, site.down) {
                    (
                        Taper::Sine { step: i, last: w },
                        Taper::Sine { step: j, last: h },
                    ) => {
                        assert!(i <= w);
                        assert!(j <= h);
                        assert_eq!(w, width - 1);
                        assert_eq!(h, height - 1);
                        assert_eq!(i as usize * height as usize + j as usize, position);
                    }
                    _ => panic!("no axis of this frame is a single sample"),
                }
            }
        }
    }
}

#[test]
fn window_of_a_frame_vanishes_on_the_border() {
    let width: u32 = 4;
    let height: u32 = 8;
    for position in 0..(width * height) as usize {
        let site = window_site(width, height, position).unwrap();
        let value = |taper: Taper| match taper {
            Taper::Flat => 1.0f32,
            Taper::Sine { step, last } => {
                ((std::f32::consts::PI * step as f32) / last as f32).sin()
            }
        };
        let window = value(site.across).min(value(site.down));
        assert!(window <= 1.0);
        assert!(window > -1.0e-6);
        let i = position as u32 / height;
        let j = position as u32 % height;
        if i == 0 || j == 0 || i == width - 1 || j == height - 1 {
            assert!(window.abs() < 1.0e-6);
        } else {
            assert!(window > 0.1);
        }
    }
}
