use xdrfile::{
    begin_read, begin_write, finish_read, num_atoms_from_scan, seek_request, AtomCount, Error, ErrorCode,
    ErrorTask, Frame, SeekTarget, WHENCE_CURRENT, WHENCE_END, WHENCE_START,
};

/// An atom-count request as a trajectory makes it, with the scan counted.
fn request(cache: &mut AtomCount, scans: &mut usize, status: i32, count: i32) -> Result<usize, Error> {
    match cache.cached() {
        Some(r) => r,
        None => {
            *scans += 1;
            let scanned = num_atoms_from_scan(ErrorCode::from(status), count);
            cache.settle(scanned)
        }
    }
}

#[test]
fn atom_count_is_scanned_once() {
    let mut cache = AtomCount::new();
    let mut scans = 0;
    let first = request(&mut cache, &mut scans, 0, 2);
    let second = request(&mut cache, &mut scans, 0, 7);
    let third = request(&mut cache, &mut scans, 9, 0);
    assert_eq!(first, Ok(2));
    assert_eq!(second, Ok(2));
    assert_eq!(third, Ok(2));
    assert_eq!(scans, 1);
}

#[test]
fn get_or_scan_calls_the_scan_once() {
    let mut cache = AtomCount::new();
    let mut scans = 0;
    let first = cache.get_or_scan(|| {
        scans += 1;
        num_atoms_from_scan(ErrorCode::ExdrOk, 2)
    });
    let second = cache.get_or_scan(|| {
        scans += 1;
        num_atoms_from_scan(ErrorCode::ExdrOk, 3)
    });
    let third = cache.get_or_scan(|| {
        scans += 1;
        num_atoms_from_scan(ErrorCode::ExdrMagic, 0)
    });
    assert_eq!((first, second, third), (Ok(2), Ok(2), Ok(2)));
    assert_eq!(scans, 1);
}

#[test]
fn failed_atom_count_is_kept() {
    let mut cache = AtomCount::new();
    let mut scans = 0;
    let magic = Err(Error::CApiError { code: ErrorCode::ExdrMagic, task: ErrorTask::ReadNumAtoms });
    assert_eq!(request(&mut cache, &mut scans, 9, 0), magic);
    assert_eq!(request(&mut cache, &mut scans, 0, 2), magic);
    assert_eq!(cache.cached(), Some(magic));
    assert_eq!(scans, 1);
}

#[test]
fn settle_keeps_the_first_outcome() {
    let mut cache = AtomCount::new();
    assert_eq!(cache.cached(), None);
    assert_eq!(cache.settle(Ok(3)), Ok(3));
    assert_eq!(cache.settle(Ok(4)), Ok(3));
    assert_eq!(cache.cached(), Some(Ok(3)));
}

#[test]
fn negative_scanned_count_is_out_of_range() {
    assert_eq!(num_atoms_from_scan(ErrorCode::ExdrOk, -1), Err(Error::OutOfRange {
        name: "num_atoms",
        value: "-1".to_string(),
        target: "usize",
        task: ErrorTask::ReadNumAtoms,
    }));
    assert_eq!(num_atoms_from_scan(ErrorCode::ExdrOk, 304), Ok(304));
}

#[test]
fn test_err_could_not_read_atom_nr() {
    // a file that is not a trajectory: the scan reports a bad magic number
    let mut cache = AtomCount::new();
    let mut scans = 0;
    if let Err(e) = request(&mut cache, &mut scans, 9, 0) {
        assert_eq!(Some(ErrorCode::ExdrMagic), e.code());
    } else {
        panic!("Should not be able to read number of atoms from readme");
    }
}

#[test]
fn test_err_could_not_read() {
    // a read from a file that is not a trajectory fails on its atom count
    let frame: Frame<f32> = Frame::with_len(1);
    let num_atoms = num_atoms_from_scan(ErrorCode::from(9), 0);
    if let Err(e) = begin_read(num_atoms, &frame) {
        assert_eq!(Some(ErrorCode::ExdrMagic), e.code());
    } else {
        panic!("Should not be able to read number of atoms from readme");
    }
}

#[test]
fn test_wrong_size_frame() {
    // the 1l2y trajectory has 304 atoms; an empty frame has none
    let frame: Frame<f32> = Frame::new();
    let result = begin_read(Ok(304), &frame);
    if let Err(e) = result {
        assert!(matches!(e, Error::WrongSizeFrame { .. }));
    } else {
        panic!("A read with an incorrectly sized frame should not succeed")
    }
}

#[test]
fn wrong_size_frame_names_both_lengths() {
    let frame: Frame<f32> = Frame::with_len(3);
    assert_eq!(begin_read(Ok(2), &frame), Err(Error::WrongSizeFrame { expected: 2, found: 3 }));
    assert_eq!(begin_read(Ok(3), &frame), Ok(3));
}

#[test]
fn test_write_outofrange_step() {
    let frame = Frame {
        step: usize::MAX,
        time: 0.0f32,
        box_vector: [[0.0; 3]; 3],
        coords: vec![[1.0; 3]],
    };
    let expected = Error::OutOfRange {
        name: "frame.step",
        value: usize::MAX.to_string(),
        target: "i32",
        task: ErrorTask::Write,
    };

    if let Err(e) = begin_write(&frame) {
        println!("{:?}", e);
        assert_eq!(expected, e);
    } else {
        panic!("Writing frame with step=usize::MAX should not succeed.")
    }
}

#[test]
fn write_fields_in_native_form() {
    let frame = Frame {
        step: 5,
        time: 2.0f32,
        box_vector: [[1.0, 2.0, 3.0], [2.0, 1.0, 3.0], [3.0, 2.0, 1.0]],
        coords: vec![[1.0, 1.0, 1.0], [1.0, 1.0, 1.0]],
    };
    assert_eq!(begin_write(&frame), Ok((2, 5)));
    let edge = Frame { step: i32::MAX as usize, ..frame.clone() };
    assert_eq!(begin_write(&edge), Ok((2, i32::MAX)));
    let over = Frame { step: i32::MAX as usize + 1, ..frame };
    assert!(matches!(begin_write(&over), Err(Error::OutOfRange { name: "frame.step", .. })));
}

#[test]
fn finish_read_sets_the_step_only_on_success() {
    let mut frame: Frame<f32> = Frame::with_len(2);
    frame.step = 4;
    assert_eq!(finish_read(&mut frame, ErrorCode::ExdrOk, 5), Ok(()));
    assert_eq!(frame.step, 5);
    assert_eq!(
        finish_read(&mut frame, ErrorCode::ExdrEndOfFile, 9),
        Err(Error::CApiError { code: ErrorCode::ExdrEndOfFile, task: ErrorTask::Read })
    );
    assert_eq!(frame.step, 5);
    let negative = finish_read(&mut frame, ErrorCode::ExdrOk, -3).unwrap_err();
    assert_eq!(negative, Error::OutOfRange {
        name: "step",
        value: "-3".to_string(),
        target: "usize",
        task: ErrorTask::Read,
    });
    assert_eq!(frame.step, 5);
}

#[test]
fn end_of_file_read_is_eof_and_corruption_is_not() {
    let mut frame: Frame<f32> = Frame::with_len(2);
    assert!(finish_read(&mut frame, ErrorCode::from(11), 0).unwrap_err().is_eof());
    assert!(!finish_read(&mut frame, ErrorCode::from(9), 0).unwrap_err().is_eof());
    assert!(!finish_read(&mut frame, ErrorCode::from(7), 0).unwrap_err().is_eof());
}

#[test]
fn seek_targets_in_native_form() {
    assert_eq!(seek_request(SeekTarget::Start(144)), Ok((144, WHENCE_START)));
    assert_eq!(seek_request(SeekTarget::Current(144)), Ok((144, WHENCE_CURRENT)));
    assert_eq!(seek_request(SeekTarget::End(-10)), Ok((-10, WHENCE_END)));
    assert_eq!(seek_request(SeekTarget::Start(u64::MAX)), Err(Error::OutOfRange {
        name: "position",
        value: "18446744073709551615".to_string(),
        target: "i64",
        task: ErrorTask::Seek,
    }));
}

#[test]
fn sized_frame_is_zero_filled() {
    let frame: Frame<f32> = Frame::with_len(3);
    assert_eq!(frame.len(), 3);
    assert_eq!(frame.num_atoms(), 3);
    assert!(!frame.is_empty());
    assert_eq!(frame.step, 0);
    assert_eq!(frame.time, 0.0);
    assert_eq!(frame.box_vector, [[0.0; 3]; 3]);
    assert_eq!(frame.coords, vec![[0.0f32; 3]; 3]);
    assert!(Frame::<f32>::new().is_empty());
}
