use xdrfile::{check_code, path_to_cstring, status_result, to, Error, ErrorCode, ErrorTask, FileMode};

#[test]
fn test_check_code() {
    let code: ErrorCode = 0.into();
    assert!(!check_code(code, ErrorTask::Read).is_some());

    for i in vec![1, 10, 100, 1000] {
        let code: ErrorCode = i.into();
        assert!(check_code(code, ErrorTask::Read).is_some());
    }
}

#[test]
fn test_to() -> Result<(), Error> {
    assert_eq!(24234_i32, to(24234_usize, ErrorTask::Write, "24234_usize")?);

    let big_number = 3_294_967_295_usize;
    let expected: Result<i32, Error> = Err(Error::OutOfRange {
        name: "big_number",
        task: ErrorTask::Write,
        value: "3294967295".to_string(),
        target: "i32",
    });
    assert_eq!(expected, to(big_number, ErrorTask::Write, "big_number"));

    let num_atoms: usize = 304;
    let res: Result<u8, _> = to(num_atoms, ErrorTask::Write, "num_atoms");
    assert_eq!(
        res.unwrap_err().message(),
        "Illegal num_atoms while writing trajectory: Failed to cast 304 to u8"
    );

    Ok(())
}

#[test]
fn test_path_to_cstring() {
    // A valid string converts to its bytes and a terminator
    let valid_result = path_to_cstring(Some("test"));
    match valid_result {
        Ok(s) => {
            assert_eq!(s, b"test\0".to_vec());
        }
        Err(_) => panic!("Valid Path failed to convert to CString."),
    }

    // \0 in path results in an InvalidOsStr(Some(position))
    let result = path_to_cstring(Some("invalid/\0path"));
    match result {
        Ok(_) => panic!("Cstring conversion did not fail"),
        Err(e) => match e {
            Error::InvalidOsStr(opt) => assert!(opt.is_some()),
            _ => panic!("Wrong error type. (This should never happend)."),
        },
    }
}

#[test]
fn path_nul_position_is_the_first_zero_byte() {
    assert_eq!(path_to_cstring(Some("ab\0c\0")), Err(Error::InvalidOsStr(Some(2))));
    assert_eq!(path_to_cstring(Some("\0")), Err(Error::InvalidOsStr(Some(0))));
}

#[test]
fn path_that_is_not_text_is_refused() {
    assert_eq!(path_to_cstring(None), Err(Error::InvalidOsStr(None)));
}

#[test]
fn empty_path_is_just_the_terminator() {
    assert_eq!(path_to_cstring(Some("")), Ok(vec![0u8]));
}

#[test]
fn error_codes_follow_the_native_numbering() {
    assert_eq!(ErrorCode::from(0), ErrorCode::ExdrOk);
    assert_eq!(ErrorCode::from(1), ErrorCode::ExdrHeader);
    assert_eq!(ErrorCode::from(7), ErrorCode::Exdr3dx);
    assert_eq!(ErrorCode::from(9), ErrorCode::ExdrMagic);
    assert_eq!(ErrorCode::from(11), ErrorCode::ExdrEndOfFile);
    assert_eq!(ErrorCode::from(12), ErrorCode::ExdrFileNotFound);
    assert_eq!(ErrorCode::from(13), ErrorCode::UnmatchedCode(13));
    assert_eq!(ErrorCode::from(-1), ErrorCode::UnmatchedCode(-1));
}

#[test]
fn only_the_end_of_file_status_is_eof() {
    let eof = check_code(ErrorCode::from(11), ErrorTask::Read).unwrap();
    assert!(eof.is_eof());
    for status in [1, 2, 3, 4, 5, 6, 7, 8, 9, 10, 12, 13, 999, -5] {
        let e = check_code(ErrorCode::from(status), ErrorTask::Read).unwrap();
        assert!(!e.is_eof(), "status {} taken for the end of the file", status);
    }
}

#[test]
fn code_looks_through_a_failed_atom_count() {
    let inner = Error::CApiError { code: ErrorCode::ExdrEndOfFile, task: ErrorTask::ReadNumAtoms };
    let outer = Error::CouldNotCheckNAtoms(Box::new(inner));
    assert_eq!(outer.code(), Some(ErrorCode::ExdrEndOfFile));
    assert!(outer.is_eof());
    assert_eq!(Error::WrongSizeFrame { expected: 1, found: 2 }.code(), None);
}

#[test]
fn status_result_of_each_code() {
    assert_eq!(status_result(ErrorCode::ExdrOk, ErrorTask::Flush), Ok(()));
    assert_eq!(
        status_result(ErrorCode::ExdrClose, ErrorTask::Flush),
        Err(Error::CApiError { code: ErrorCode::ExdrClose, task: ErrorTask::Flush })
    );
}

#[test]
fn to_widens_and_narrows_exactly() {
    assert_eq!(to::<i32, usize>(7, ErrorTask::Read, "step"), Ok(7usize));
    assert_eq!(to::<usize, i32>(2147483647, ErrorTask::Write, "n"), Ok(i32::MAX));
    assert_eq!(to::<u64, i64>(u64::MAX, ErrorTask::Seek, "position").unwrap_err(), Error::OutOfRange {
        name: "position",
        value: "18446744073709551615".to_string(),
        target: "i64",
        task: ErrorTask::Seek,
    });
    assert_eq!(to::<i32, usize>(-5, ErrorTask::Read, "step").unwrap_err(), Error::OutOfRange {
        name: "step",
        value: "-5".to_string(),
        target: "usize",
        task: ErrorTask::Read,
    });
    assert_eq!(to::<i64, u8>(i64::MIN, ErrorTask::Read, "v").unwrap_err(), Error::OutOfRange {
        name: "v",
        value: "-9223372036854775808".to_string(),
        target: "u8",
        task: ErrorTask::Read,
    });
    assert_eq!(to::<usize, u8>(0, ErrorTask::Write, "zero"), Ok(0u8));
}

#[test]
fn messages_of_each_error() {
    let open = Error::CouldNotOpen { path: "a.xtc".to_string(), mode: FileMode::Append };
    assert_eq!(open.message(), "Could not open file at a.xtc in mode Append");
    assert_eq!(Error::InvalidOsStr(None).message(), "Invalid path: it is not valid text");
    assert_eq!(Error::InvalidOsStr(Some(40)).message(), "Invalid path: zero byte at position 40");
    assert_eq!(
        Error::WrongSizeFrame { expected: 304, found: 0 }.message(),
        "Wrong frame size: expected 304 atoms, found 0"
    );
    let native = Error::CApiError { code: ErrorCode::ExdrMagic, task: ErrorTask::ReadNumAtoms };
    assert_eq!(
        native.message(),
        "Native error while reading the atom count of trajectory: bad magic number"
    );
    let unknown = Error::CApiError { code: ErrorCode::UnmatchedCode(1000), task: ErrorTask::Seek };
    assert_eq!(unknown.message(), "Native error while seeking in trajectory: unknown code 1000");
    let wrapped = Error::CouldNotCheckNAtoms(Box::new(Error::CApiError {
        code: ErrorCode::ExdrEndOfFile,
        task: ErrorTask::ReadNumAtoms,
    }));
    assert_eq!(
        wrapped.message(),
        "Could not check the number of atoms: Native error while reading the atom count of trajectory: end of file"
    );
}

#[test]
fn mode_tokens() {
    assert_eq!(FileMode::Write.to_cstr(), *b"w\0");
    assert_eq!(FileMode::Append.to_cstr(), *b"a\0");
    assert_eq!(FileMode::Read.to_cstr(), *b"r\0");
}
