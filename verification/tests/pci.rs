use libtlp::pci::{hex_digit, is_space_char, Bdf};
use libtlp::Error;
use std::str::FromStr;

#[test]
fn form_str() {
    let a = Bdf {
        bus: 0xff,
        device: 0x05,
        func: 0x1,
    };
    let b = Bdf::from_str("ff:05.1").unwrap();
    assert_eq!(a, b);
}

#[test]
fn bdf_from_text() {
    assert_eq!(Bdf::from_str("01:00.0").unwrap(), Bdf::new(1, 0, 0));
    assert_eq!("01:00.0".parse::<Bdf>().unwrap(), Bdf::new(1, 0, 0));
    assert_eq!(Bdf::from_str("  Ab:1f.7\t\n").unwrap(), Bdf::new(0xab, 0x1f, 7));
    assert_eq!(
        Bdf::from_str("\u{3000}00:00.0\u{a0}").unwrap(),
        Bdf::new(0, 0, 0)
    );
    // The form does not bound the device and the function.
    assert_eq!(
        Bdf::from_str("ff:ff.f").unwrap(),
        Bdf { bus: 0xff, device: 0xff, func: 0xf }
    );
}

#[test]
fn invalid_bdf_carries_the_text() {
    for text in [
        "", " ", "01:00", "01:00.", "1:00.0", "01:00.00", "01-00.0", "01:00:0", "0g:00.0",
        "01:00.0 x", "x 01:00.0", "01 :00.0", "01:00.0\n1", "０１:00.0",
    ] {
        match Bdf::from_str(text) {
            Err(Error::InvalidBDF(t)) => assert_eq!(t, text),
            other => panic!("{:?} for {:?}", other, text),
        }
        assert!(text.parse::<Bdf>().is_err());
    }
}

#[test]
fn bdf_text_agrees_with_the_pattern() {
    let re = regex::Regex::new(
        r"^\s*([[:xdigit:]]{2}):([[:xdigit:]]{2})\.([[:xdigit:]]{1})\s*$",
    )
    .unwrap();
    let pieces = [
        "", " ", "\t", "\u{85}", "\u{2003}", "\u{200b}", "0", "a", "F", "g", ":", ".", "01", "ff",
        "00.0", "1f.7", "\n", "x",
    ];
    for a in pieces {
        for b in pieces {
            for c in pieces {
                for d in pieces {
                    let text = format!("{}{}{}{}", a, b, c, d);
                    let want = re.captures(&text).map(|caps| Bdf {
                        bus: u8::from_str_radix(caps.get(1).unwrap().as_str(), 16).unwrap(),
                        device: u8::from_str_radix(caps.get(2).unwrap().as_str(), 16).unwrap(),
                        func: u8::from_str_radix(caps.get(3).unwrap().as_str(), 16).unwrap(),
                    });
                    assert_eq!(Bdf::from_str(&text).ok(), want, "{:?}", text);
                }
            }
        }
    }
}

#[test]
fn white_space_and_hex_digits() {
    let re_space = regex::Regex::new(r"^\s$").unwrap();
    for u in 0u32..0x3100 {
        if let Some(c) = char::from_u32(u) {
            let mut buf = [0u8; 4];
            assert_eq!(is_space_char(c), re_space.is_match(c.encode_utf8(&mut buf)), "{:x}", u);
            assert_eq!(hex_digit(c), c.to_digit(16).filter(|_| c.is_ascii()).map(|d| d as u8));
        }
    }
    assert_eq!(hex_digit('9'), Some(9));
    assert_eq!(hex_digit('a'), Some(10));
    assert_eq!(hex_digit('F'), Some(15));
    assert_eq!(hex_digit('g'), None);
}
