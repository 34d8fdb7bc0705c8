use chip8::util::hex2decimal;

#[test]
fn test_hex2decimal() {
    let num = 0x23;

    let actual = hex2decimal(num);
    assert_eq!(actual, [0, 3, 5]);
}

#[test]
fn test_hex2decimal_2() {
    let num = 0xff;

    let actual = hex2decimal(num);
    assert_eq!(actual, [2, 5, 5]);
}

#[test]
fn test_hex2decimal_3() {
    let num = 0x00;

    let actual = hex2decimal(num);
    assert_eq!(actual, [0, 0, 0]);
}

#[test]
fn test_hex2decimal_4() {
    let num = 0x01;

    let actual = hex2decimal(num);
    assert_eq!(actual, [0, 0, 1]);
}
