use emscripten::{EmError, EmscriptenResult};

#[test]
fn success_codes_are_ok() {
    for code in [0, 1] {
        let result = EmscriptenResult::from(code);
        assert!(result.is_ok());
        assert!(!result.is_err());
        assert_eq!(Result::<(), EmError>::from(result), Ok(()));
    }
    assert_eq!(EmscriptenResult::from(0), EmscriptenResult::Success);
    assert_eq!(EmscriptenResult::from(1), EmscriptenResult::Deferred);
}

#[test]
fn named_error_codes() {
    let named = [
        (-1, EmError::NotSupported),
        (-2, EmError::FailedNotDeferred),
        (-3, EmError::InvalidTarget),
        (-4, EmError::UnknownTarget),
        (-5, EmError::InvalidParam),
        (-6, EmError::Failed),
        (-7, EmError::NoData),
        (-8, EmError::TimedOut),
    ];
    for (code, error) in named {
        assert_eq!(EmError::try_from(code), Ok(error));
        let result = EmscriptenResult::from(code);
        assert_eq!(result, EmscriptenResult::Error(error));
        assert!(result.is_err());
        assert!(!result.is_ok());
        assert_eq!(Result::<(), EmError>::from(result), Err(error));
    }
}

#[test]
fn other_codes_are_unknown() {
    for code in [-9, -100, 2, 3, i32::MIN, i32::MAX] {
        assert_eq!(EmError::try_from(code), Err(()));
        assert_eq!(
            EmscriptenResult::from(code),
            EmscriptenResult::Error(EmError::UnknownCode(code))
        );
    }
    assert_eq!(EmError::try_from(0), Err(()));
    assert_eq!(EmError::try_from(1), Err(()));
}

#[test]
fn different_codes_are_read_differently() {
    let results: Vec<EmscriptenResult> = (-12..12).map(EmscriptenResult::from).collect();
    for i in 0..results.len() {
        for j in 0..i {
            assert_ne!(results[i], results[j]);
        }
    }
}
