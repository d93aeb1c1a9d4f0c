use raytracer::colour::Colour;
use raytracer::integrator::{shade, Event, Path, Step, Terminal};

fn channels(c: Colour<f64>) -> (f64, f64, f64) {
    (c.r, c.g, c.b)
}

#[test]
fn zero_depth_is_black_at_once() {
    let path: Path<f64> = Path::new(0);
    assert!(matches!(path.start(7u8), Step::Finish(Terminal::Black)));
    let c = shade(&path.attenuations, Colour::new(0.0, 0.0, 0.0));
    assert_eq!(channels(c), (0.0, 0.0, 0.0));
}

#[test]
fn positive_depth_traces_the_camera_ray() {
    let path: Path<f64> = Path::new(3);
    assert!(matches!(path.start(7u8), Step::Trace(7)));
}

#[test]
fn miss_ends_in_background() {
    let mut path: Path<f64> = Path::new(2);
    let step = path.advance(Event::<f64, u8>::Missed);
    assert!(matches!(step, Step::Finish(Terminal::Background)));
    assert_eq!(path.remaining, 2);
    assert!(path.attenuations.is_empty());
}

#[test]
fn absorbed_ends_in_white() {
    let mut path: Path<f64> = Path::new(2);
    let step = path.advance(Event::<f64, u8>::Absorbed);
    assert!(matches!(step, Step::Finish(Terminal::White)));
    assert_eq!(path.remaining, 2);
}

#[test]
fn scatter_uses_one_bounce_and_records_attenuation() {
    let mut path: Path<f64> = Path::new(2);
    let step = path.advance(Event::Scattered {
        attenuation: Colour::new(0.5, 0.5, 0.5),
        ray: 9u8,
    });
    assert!(matches!(step, Step::Trace(9)));
    assert_eq!(path.remaining, 1);
    assert_eq!(path.attenuations.len(), 1);
}

#[test]
fn last_bounce_ends_in_black() {
    let mut path: Path<f64> = Path::new(1);
    let step = path.advance(Event::Scattered {
        attenuation: Colour::new(0.5, 0.5, 0.5),
        ray: 9u8,
    });
    assert!(matches!(step, Step::Finish(Terminal::Black)));
    assert_eq!(path.remaining, 0);
}

#[test]
fn shade_applies_attenuations_to_the_terminal() {
    let attenuations = vec![Colour::new(0.5, 1.0, 0.25), Colour::new(0.5, 0.5, 1.0)];
    let c = shade(&attenuations, Colour::new(1.0, 0.5, 1.0));
    assert_eq!(channels(c), (0.25, 0.25, 0.25));
}

#[test]
fn shade_of_no_bounce_is_the_terminal() {
    let c = shade(&Vec::new(), Colour::new(0.5, 0.7, 1.0));
    assert_eq!(channels(c), (0.5, 0.7, 1.0));
}

#[test]
fn full_path_with_integer_channels() {
    let mut path: Path<u64> = Path::new(5);
    let mut step = path.start(0u8);
    let mut bounces = 0;
    while let Step::Trace(_) = step {
        step = if bounces < 2 {
            bounces += 1;
            path.advance(Event::Scattered {
                attenuation: Colour::new(2u64, 3, 5),
                ray: bounces,
            })
        } else {
            path.advance(Event::Missed)
        };
    }
    assert!(matches!(step, Step::Finish(Terminal::Background)));
    assert_eq!(path.remaining, 3);
    let c = shade(&path.attenuations, Colour::new(1u64, 1, 1));
    assert_eq!((c.r, c.g, c.b), (4, 9, 25));
}
