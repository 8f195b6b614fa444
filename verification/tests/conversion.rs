use syscall_util::call::convert_raw_return_code_from_rax;
use syscall_util::errno::Errno;

#[test]
fn zero_is_a_success_with_payload_zero() {
    assert_eq!(convert_raw_return_code_from_rax(0), Ok(0));
}

#[test]
fn positive_values_are_payloads() {
    assert_eq!(convert_raw_return_code_from_rax(1), Ok(1));
    assert_eq!(convert_raw_return_code_from_rax(3), Ok(3));
    assert_eq!(convert_raw_return_code_from_rax(8), Ok(8));
    assert_eq!(convert_raw_return_code_from_rax(4096), Ok(4096));
    assert_eq!(convert_raw_return_code_from_rax(0x7fff_0000), Ok(0x7fff_0000));
}

#[test]
fn largest_value_is_a_payload() {
    assert_eq!(
        convert_raw_return_code_from_rax(isize::MAX),
        Ok(isize::MAX as usize)
    );
}

#[test]
fn minus_one_is_error_one() {
    assert_eq!(convert_raw_return_code_from_rax(-1), Err(1));
}

#[test]
fn negative_values_are_negated_error_codes() {
    assert_eq!(convert_raw_return_code_from_rax(-2), Err(2));
    assert_eq!(convert_raw_return_code_from_rax(-11), Err(11));
    assert_eq!(convert_raw_return_code_from_rax(-38), Err(38));
    assert_eq!(convert_raw_return_code_from_rax(-133), Err(133));
    assert_eq!(convert_raw_return_code_from_rax(-4095), Err(4095));
}

#[test]
fn smallest_value_is_an_error_with_its_magnitude() {
    let magnitude: usize = (isize::MAX as usize) + 1;
    assert_eq!(convert_raw_return_code_from_rax(isize::MIN), Err(magnitude));
    assert_eq!(
        convert_raw_return_code_from_rax(isize::MIN + 1),
        Err(isize::MAX as usize)
    );
}

#[test]
fn sign_alone_decides_between_success_and_failure() {
    let mut raw: isize = -2000;
    while raw <= 2000 {
        let result = convert_raw_return_code_from_rax(raw);
        if raw >= 0 {
            assert_eq!(result, Ok(raw as usize));
        } else {
            assert_eq!(result, Err(raw.unsigned_abs()));
        }
        raw += 1;
    }
}

#[test]
fn error_code_is_never_zero() {
    let mut raw: isize = -500;
    while raw < 0 {
        match convert_raw_return_code_from_rax(raw) {
            Err(code) => assert!(code > 0),
            Ok(_) => panic!("a negative value was taken for a success"),
        }
        raw += 1;
    }
}

#[test]
fn conversion_is_stable() {
    let raws: Vec<isize> = vec![isize::MIN, -133, -1, 0, 1, 42, isize::MAX];
    for raw in raws {
        assert_eq!(
            convert_raw_return_code_from_rax(raw),
            convert_raw_return_code_from_rax(raw)
        );
    }
}

#[test]
fn process_id_answer_is_a_positive_payload() {
    let result = convert_raw_return_code_from_rax(4242);
    assert!(matches!(result, Ok(pid) if pid > 0));
}

#[test]
fn open_read_close_answers_are_payloads() {
    let opened = convert_raw_return_code_from_rax(3);
    let fd: usize = opened.unwrap();
    assert_eq!(fd, 3);

    let read = convert_raw_return_code_from_rax(8);
    assert!(matches!(read, Ok(read_bytes) if read_bytes == 8));

    let closed = convert_raw_return_code_from_rax(0);
    assert!(matches!(closed, Ok(0)));
}

#[test]
fn missing_file_answer_is_enoent() {
    let result = convert_raw_return_code_from_rax(-2);
    assert!(matches!(result, Err(errno) if errno == Errno::ENOENT.code()));
    assert_eq!(result.map_err(Errno::from_code), Err(Some(Errno::ENOENT)));
}

#[test]
fn unknown_call_number_answer_is_enosys() {
    let result = convert_raw_return_code_from_rax(-38);
    assert!(matches!(result, Err(errno) if errno == Errno::ENOSYS.code()));
    assert_eq!(result.map_err(Errno::from_code), Err(Some(Errno::ENOSYS)));
}

#[test]
fn error_code_outside_the_table_is_not_named() {
    let result = convert_raw_return_code_from_rax(-41);
    assert_eq!(result, Err(41));
    assert_eq!(result.map_err(Errno::from_code), Err(None));

    let result = convert_raw_return_code_from_rax(-4095);
    assert_eq!(result.map_err(Errno::from_code), Err(None));

    let result = convert_raw_return_code_from_rax(isize::MIN);
    assert_eq!(result.map_err(Errno::from_code), Err(None));
}
