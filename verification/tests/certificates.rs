use acme::util::leaf_certificate;

fn by_lines(chain: &str) -> Vec<u8> {
    chain
        .lines()
        .take_while(|line| !line.is_empty())
        .map(|line| {
            let mut line_with_end = line.to_owned();
            line_with_end.push_str("\r\n");
            line_with_end
        })
        .collect::<String>()
        .into_bytes()
}

#[test]
fn leaf_is_the_first_certificate_of_the_chain() {
    let chain = "-----BEGIN CERTIFICATE-----\nAAAA\nBBBB\n-----END CERTIFICATE-----\n\n-----BEGIN CERTIFICATE-----\nCCCC\n-----END CERTIFICATE-----\n";
    assert_eq!(
        leaf_certificate(chain),
        b"-----BEGIN CERTIFICATE-----\r\nAAAA\r\nBBBB\r\n-----END CERTIFICATE-----\r\n".to_vec()
    );
}

#[test]
fn leaf_of_a_single_certificate_is_all_of_it() {
    assert_eq!(leaf_certificate("A\nB"), b"A\r\nB\r\n".to_vec());
    assert_eq!(leaf_certificate("A\nB\n"), b"A\r\nB\r\n".to_vec());
    assert_eq!(leaf_certificate("A\r\nB\r\n"), b"A\r\nB\r\n".to_vec());
}

#[test]
fn leaf_ends_at_the_first_empty_line() {
    assert_eq!(leaf_certificate(""), Vec::<u8>::new());
    assert_eq!(leaf_certificate("\nA"), Vec::<u8>::new());
    assert_eq!(leaf_certificate("\r\nA"), Vec::<u8>::new());
    assert_eq!(leaf_certificate("A\n\nB"), b"A\r\n".to_vec());
    assert_eq!(leaf_certificate("A\r\n\r\nB"), b"A\r\n".to_vec());
}

#[test]
fn leaf_keeps_a_carriage_return_that_ends_no_line() {
    assert_eq!(leaf_certificate("A\rB\n"), b"A\rB\r\n".to_vec());
    assert_eq!(leaf_certificate("A\r"), b"A\r\r\n".to_vec());
    assert_eq!(leaf_certificate("A\r\r\nB"), b"A\r\r\nB\r\n".to_vec());
}

#[test]
fn leaf_agrees_with_the_lines_of_the_text() {
    let pieces = ["A", "", "\n", "\r", "\r\n", "é", "B\n", "\n\n", "x\r"];
    for a in pieces {
        for b in pieces {
            for c in pieces {
                for d in pieces {
                    let chain = format!("{}{}{}{}", a, b, c, d);
                    assert_eq!(leaf_certificate(&chain), by_lines(&chain), "{:?}", chain);
                }
            }
        }
    }
}
