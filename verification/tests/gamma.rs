use gnome_randr::display_config::gamma::{
    find_last_unclamped, Channel, FitSamples, GammaRamp, Sample,
};
use gnome_randr::Error;

fn same_on_all(channel: Vec<u16>) -> GammaRamp {
    GammaRamp { red: channel.clone(), green: channel.clone(), blue: channel }
}

#[test]
fn the_identity_ramp_of_256_entries_rises_in_steps_of_257() {
    let ramp = GammaRamp::linear(256);
    assert_eq!(ramp.red.len(), 256);
    assert_eq!(ramp.green.len(), 256);
    assert_eq!(ramp.blue.len(), 256);
    for idx in 0..256usize {
        let expected = (idx as f64 / 255.0 * 65535.0).round() as u16;
        assert_eq!(expected as usize, idx * 257);
        assert_eq!(ramp.red[idx], expected);
        assert_eq!(ramp.green[idx], expected);
        assert_eq!(ramp.blue[idx], expected);
    }
    assert_eq!(ramp.red[0], 0);
    assert_eq!(ramp.red[1], 257);
    assert_eq!(ramp.red[255], 65535);
}

#[test]
fn the_identity_ramp_rounds_down() {
    let ramp = GammaRamp::linear(4);
    // 0, 65535/3, 2*65535/3, 65535
    assert_eq!(ramp.red, vec![0, 21845, 43690, 65535]);
    let ramp = GammaRamp::linear(7);
    // 65535/6 = 10922.5
    assert_eq!(ramp.blue, vec![0, 10922, 21845, 32767, 43690, 54612, 65535]);
    assert_eq!(GammaRamp::linear(2).green, vec![0, 65535]);
}

#[test]
fn the_identity_ramp_matches_the_real_number_formula() {
    for size in [2usize, 3, 16, 255, 256, 1024, 4096] {
        let ramp = GammaRamp::linear(size);
        for idx in 0..size {
            let i = idx as f64 / (size - 1) as f64;
            assert_eq!(ramp.red[idx], (i * 65535.0) as u16);
        }
    }
}

#[test]
fn tiny_identity_ramps() {
    assert_eq!(GammaRamp::linear(0), same_on_all(vec![]));
    assert_eq!(GammaRamp::linear(1), same_on_all(vec![0]));
}

#[test]
fn last_unclamped_is_the_last_entry_below_full() {
    assert_eq!(find_last_unclamped(&vec![0, 10, 20, 65535, 65535]), 2);
    assert_eq!(find_last_unclamped(&vec![0, 10, 20]), 2);
    assert_eq!(find_last_unclamped(&vec![65535, 65535, 3, 65535]), 2);
    assert_eq!(find_last_unclamped(&vec![5, 65535, 65535]), 0);
    assert_eq!(find_last_unclamped(&vec![65535, 65535, 65535]), 0);
    assert_eq!(find_last_unclamped(&vec![65534]), 0);
    assert_eq!(find_last_unclamped(&vec![]), 0);
}

#[test]
fn a_black_ramp_is_dark() {
    assert_eq!(same_on_all(vec![0; 256]).fit_samples(), Ok(FitSamples::Dark));
    assert_eq!(same_on_all(vec![0, 0]).fit_samples(), Ok(FitSamples::Dark));
}

#[test]
fn the_dark_threshold_is_one_ten_thousandth() {
    // 6 / 65535 is below 0.0001 and 7 / 65535 is above it.
    assert!(6.0 / 65535.0 < 0.0001 && 7.0 / 65535.0 > 0.0001);
    assert_eq!(same_on_all(vec![0, 3, 6]).fit_samples(), Ok(FitSamples::Dark));
    let barely = same_on_all(vec![0, 3, 7]).fit_samples().unwrap();
    assert_eq!(
        barely,
        FitSamples::Curve {
            size: 3,
            reference: Channel::Red,
            middle: Sample { index: 1, value: 3 },
            top: Sample { index: 2, value: 7 },
            top_is_last: true,
            red: Sample { index: 1, value: 3 },
            green: Sample { index: 1, value: 3 },
            blue: Sample { index: 1, value: 3 },
        }
    );
}

#[test]
fn a_linear_ramp_is_sampled_below_its_clamped_end() {
    let ramp = GammaRamp::linear(256);
    let samples = ramp.fit_samples().unwrap();
    // The last entry is at full intensity, so the top sample is the one before it.
    assert_eq!(
        samples,
        FitSamples::Curve {
            size: 256,
            reference: Channel::Red,
            middle: Sample { index: 127, value: 127 * 257 },
            top: Sample { index: 254, value: 254 * 257 },
            top_is_last: false,
            red: Sample { index: 127, value: 127 * 257 },
            green: Sample { index: 127, value: 127 * 257 },
            blue: Sample { index: 127, value: 127 * 257 },
        }
    );
}

/// Brightness and exponents as the two-point solve gives them from the samples.
fn solve(samples: FitSamples) -> (f64, f64, f64, f64) {
    match samples {
        FitSamples::Dark => (0.0, 1.0, 1.0, 1.0),
        FitSamples::Curve { size, middle, top, top_is_last, red, green, blue, .. } => {
            let size = size as f64;
            let i1 = (middle.index + 1) as f64 / size;
            let v1 = middle.value as f64 / 65535.0;
            let i2 = (top.index + 1) as f64 / size;
            let v2 = top.value as f64 / 65535.0;
            let brightness = if top_is_last {
                v2
            } else {
                ((v2.ln() * i1.ln() - v1.ln() * i2.ln()) / (i1 / i2).ln()).exp()
            };
            let exponent = |s: Sample| {
                (s.value as f64 / brightness / 65535.0).ln() / ((s.index + 1) as f64 / size).ln()
            };
            (brightness, exponent(red), exponent(green), exponent(blue))
        }
    }
}

#[test]
fn a_linear_ramp_fits_to_about_one() {
    let channel: Vec<u16> = (0..256u32).map(|i| (i * 65535 / 255) as u16).collect();
    let (brightness, red, green, blue) = solve(same_on_all(channel).fit_samples().unwrap());
    assert!((brightness - 1.0).abs() < 0.02, "brightness {}", brightness);
    assert!((red - 1.0).abs() < 0.02, "red {}", red);
    assert!((green - 1.0).abs() < 0.02, "green {}", green);
    assert!((blue - 1.0).abs() < 0.02, "blue {}", blue);
}

#[test]
fn a_dimmed_ramp_ends_with_its_brightness() {
    // Half brightness, no entry clamped: the top sample is the last entry.
    let channel: Vec<u16> = (0..256u32).map(|i| (i * 32767 / 255) as u16).collect();
    let samples = same_on_all(channel).fit_samples().unwrap();
    match samples {
        FitSamples::Curve { top, top_is_last, middle, .. } => {
            assert_eq!(top, Sample { index: 255, value: 32767 });
            assert!(top_is_last);
            assert_eq!(middle, Sample { index: 127, value: (127 * 32767 / 255) as u16 });
        }
        FitSamples::Dark => panic!("not dark"),
    }
    let (brightness, ..) = solve(samples);
    assert!((brightness - 0.5).abs() < 0.001);
}

#[test]
fn the_reference_is_the_colour_that_clamps_last() {
    let ramp = GammaRamp {
        red: vec![0, 100, 65535, 65535, 65535, 65535],
        green: vec![0, 100, 200, 300, 65535, 65535],
        blue: vec![0, 100, 200, 65535, 65535, 65535],
    };
    assert_eq!(
        ramp.fit_samples(),
        Ok(FitSamples::Curve {
            size: 6,
            reference: Channel::Green,
            middle: Sample { index: 1, value: 100 },
            top: Sample { index: 3, value: 300 },
            top_is_last: false,
            red: Sample { index: 0, value: 0 },
            green: Sample { index: 1, value: 100 },
            blue: Sample { index: 1, value: 100 },
        })
    );
    let ramp = GammaRamp {
        red: vec![0, 100, 65535, 65535],
        green: vec![0, 100, 65535, 65535],
        blue: vec![9, 100, 200, 65535],
    };
    match ramp.fit_samples().unwrap() {
        FitSamples::Curve { reference, top, .. } => {
            assert_eq!(reference, Channel::Blue);
            assert_eq!(top, Sample { index: 2, value: 200 });
        }
        FitSamples::Dark => panic!("not dark"),
    }
}

#[test]
fn ties_go_to_red_then_green() {
    let ramp = GammaRamp {
        red: vec![10, 110, 210, 65535],
        green: vec![20, 120, 220, 65535],
        blue: vec![30, 130, 230, 65535],
    };
    match ramp.fit_samples().unwrap() {
        FitSamples::Curve { reference, middle, top, .. } => {
            assert_eq!(reference, Channel::Red);
            assert_eq!(middle, Sample { index: 1, value: 110 });
            assert_eq!(top, Sample { index: 2, value: 210 });
        }
        FitSamples::Dark => panic!("not dark"),
    }
    let ramp = GammaRamp {
        red: vec![10, 110, 65535, 65535],
        green: vec![20, 120, 220, 65535],
        blue: vec![30, 130, 230, 65535],
    };
    match ramp.fit_samples().unwrap() {
        FitSamples::Curve { reference, .. } => assert_eq!(reference, Channel::Green),
        FitSamples::Dark => panic!("not dark"),
    }
}

#[test]
fn a_fully_clamped_ramp_is_sampled_at_its_second_entry() {
    let samples = same_on_all(vec![65535; 8]).fit_samples().unwrap();
    assert_eq!(
        samples,
        FitSamples::Curve {
            size: 8,
            reference: Channel::Red,
            middle: Sample { index: 0, value: 65535 },
            top: Sample { index: 1, value: 65535 },
            top_is_last: false,
            red: Sample { index: 0, value: 65535 },
            green: Sample { index: 0, value: 65535 },
            blue: Sample { index: 0, value: 65535 },
        }
    );
}

#[test]
fn malformed_ramps_are_invalid_arguments() {
    assert_eq!(same_on_all(vec![]).fit_samples(), Err(Error::InvalidArgument));
    assert_eq!(same_on_all(vec![0]).fit_samples(), Err(Error::InvalidArgument));
    let uneven = GammaRamp { red: vec![0, 1, 2], green: vec![0, 1], blue: vec![0, 1, 2] };
    assert_eq!(uneven.fit_samples(), Err(Error::InvalidArgument));
    let uneven = GammaRamp { red: vec![0, 1, 2], green: vec![0, 1, 2], blue: vec![0, 1, 2, 3] };
    assert_eq!(uneven.fit_samples(), Err(Error::InvalidArgument));
}
