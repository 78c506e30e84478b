use curl::easy::{
    Decode, DecodeRequest,
    debug_callback_result, next_step, Step, header_callback_result, progress_callback_result, seek_callback_result, seek_target,
    transfer_callback_result, Callback, CertLocations, Duration, Easy, InfoType, IpResolve,
    OptValue, ProxyType, SeekResult, Setopt, SslVersion, TimeCondition,
};
use curl::error::{cvt, Error};
use curl::sys;
use curl::List;

fn long(option: u32, v: i64) -> Setopt<'static> {
    Setopt { option, value: OptValue::Long(v) }
}

fn off_t(option: u32, v: i64) -> Setopt<'static> {
    Setopt { option, value: OptValue::OffT(v) }
}

fn text(option: u32, s: &str) -> Setopt<'static> {
    Setopt { option, value: OptValue::Str(s.as_bytes().to_vec()) }
}

fn long_answer(want: u32, code: u32, v: i64) -> impl FnOnce(u32) -> (u32, i64) {
    move |info| {
        assert_eq!(info, want);
        (code, v)
    }
}

fn text_answer(want: u32, code: u32, v: Option<&[u8]>) -> impl FnOnce(u32) -> (u32, Option<Vec<u8>>) {
    let v = v.map(|b| b.to_vec());
    move |info| {
        assert_eq!(info, want);
        (code, v)
    }
}

fn ask(d: Decode) -> DecodeRequest {
    match d {
        Decode::Ask(q) => q,
        Decode::Done(v) => panic!("decoded without libcurl: {:?}", v),
    }
}

fn conv_failed() -> Error {
    Error::new(sys::CURLE_CONV_FAILED)
}

#[test]
fn cvt_success_only_for_ok() {
    assert_eq!(cvt(0), Ok(()));
    assert_eq!(cvt(6), Err(Error::new(6)));
    assert_eq!(cvt(u32::MAX).unwrap_err().code(), u32::MAX);
}

#[test]
fn flag_options_send_one_or_zero() {
    let e = Easy::new();
    assert_eq!(e.verbose(true), long(41, 1));
    assert_eq!(e.verbose(false), long(41, 0));
    assert_eq!(e.show_header(true), long(42, 1));
    assert_eq!(e.wildcard_match(true), long(197, 1));
    assert_eq!(e.fail_on_error(false), long(45, 0));
    assert_eq!(e.follow_location(true), long(sys::CURLOPT_FOLLOWLOCATION, 1));
    assert_eq!(e.get(true), long(sys::CURLOPT_HTTPGET, 1));
    assert_eq!(e.post(true), long(sys::CURLOPT_POST, 1));
    assert_eq!(e.put(false), long(sys::CURLOPT_PUT, 0));
    assert_eq!(e.upload(true), long(sys::CURLOPT_UPLOAD, 1));
    assert_eq!(e.nobody(true), long(sys::CURLOPT_NOBODY, 1));
    assert_eq!(e.ssl_verify_peer(false), long(64, 0));
    assert_eq!(e.tcp_nodelay(true), long(121, 1));
    assert_eq!(e.connect_only(true), long(141, 1));
    assert_eq!(e.cookie_session(true), long(96, 1));
    assert_eq!(e.certinfo(true), long(172, 1));
    assert_eq!(e.ssl_sessionid_cache(false), long(150, 0));
}

#[test]
fn progress_and_signal_set_the_negated_option() {
    let e = Easy::new();
    assert_eq!(e.progress(true), long(sys::CURLOPT_NOPROGRESS, 0));
    assert_eq!(e.progress(false), long(sys::CURLOPT_NOPROGRESS, 1));
    assert_eq!(e.signal(true), long(sys::CURLOPT_NOSIGNAL, 0));
    assert_eq!(e.signal(false), long(sys::CURLOPT_NOSIGNAL, 1));
}

#[test]
fn ssl_verify_host_sends_two_or_zero() {
    let e = Easy::new();
    assert_eq!(e.ssl_verify_host(true), long(81, 2));
    assert_eq!(e.ssl_verify_host(false), long(81, 0));
}

#[test]
fn integer_options_send_their_value() {
    let e = Easy::new();
    assert_eq!(e.port(8080), long(3, 8080));
    assert_eq!(e.proxy_port(3128), long(59, 3128));
    assert_eq!(e.set_local_port(u16::MAX), long(139, 65535));
    assert_eq!(e.local_port_range(10), long(140, 10));
    assert_eq!(e.buffer_size(16384), long(98, 16384));
    assert_eq!(e.address_scope(7), long(171, 7));
    assert_eq!(e.max_redirections(u32::MAX), long(68, 4294967295));
    assert_eq!(e.time_value(-5), long(34, -5));
    assert_eq!(e.low_speed_limit(100), long(19, 100));
    assert_eq!(e.max_connects(4), long(71, 4));
}

#[test]
fn enumerated_options_send_libcurl_codes() {
    let e = Easy::new();
    assert_eq!(e.proxy_type(ProxyType::Http), long(101, 0));
    assert_eq!(e.proxy_type(ProxyType::Http1), long(101, 1));
    assert_eq!(e.proxy_type(ProxyType::Socks4), long(101, 4));
    assert_eq!(e.proxy_type(ProxyType::Socks5), long(101, 5));
    assert_eq!(e.proxy_type(ProxyType::Socks4a), long(101, 6));
    assert_eq!(e.proxy_type(ProxyType::Socks5Hostname), long(101, 7));
    assert_eq!(e.time_condition(TimeCondition::NoCondition), long(33, 0));
    assert_eq!(e.time_condition(TimeCondition::IfModifiedSince), long(33, 1));
    assert_eq!(e.time_condition(TimeCondition::IfUnmodifiedSince), long(33, 2));
    assert_eq!(e.time_condition(TimeCondition::LastModified), long(33, 3));
    assert_eq!(e.ip_resolve(IpResolve::Any), long(113, 0));
    assert_eq!(e.ip_resolve(IpResolve::V4), long(113, 1));
    assert_eq!(e.ip_resolve(IpResolve::V6), long(113, 2));
    assert_eq!(e.ssl_version(SslVersion::Default), long(32, 0));
    assert_eq!(e.ssl_version(SslVersion::Tlsv1), long(32, 1));
    assert_eq!(e.ssl_version(SslVersion::Sslv2), long(32, 2));
    assert_eq!(e.ssl_version(SslVersion::Sslv3), long(32, 3));
}

#[test]
fn hidden_variants_keep_their_numbers() {
    assert_eq!(ProxyType::__Nonexhaustive.raw(), 8);
    assert_eq!(TimeCondition::__Nonexhaustive.raw(), 4);
    assert_eq!(IpResolve::__Nonexhaustive.raw(), 500);
    assert_eq!(SslVersion::__Nonexhaustive.raw(), 500);
    assert_eq!(SeekResult::__Nonexhaustive.raw(), 500);
}

#[test]
fn timeouts_are_sent_in_milliseconds() {
    let e = Easy::new();
    assert_eq!(e.timeout(Duration::new(2, 345_678_901)), long(sys::CURLOPT_TIMEOUT_MS, 2345));
    assert_eq!(e.connect_timeout(Duration::from_millis(1500)), long(156, 1500));
    assert_eq!(e.timeout(Duration::new(0, 999_999)), long(155, 0));
}

#[test]
fn second_options_drop_the_fraction() {
    let e = Easy::new();
    assert_eq!(e.dns_cache_timeout(Duration::from_secs(60)), long(92, 60));
    assert_eq!(e.low_speed_time(Duration::from_millis(1999)), long(20, 1));
}

#[test]
fn duration_parts() {
    let d = Duration::from_millis(61_250);
    assert_eq!(d.as_secs(), 61);
    assert_eq!(d.subsec_nanos(), 250_000_000);
    assert_eq!(Duration::new(3, 7), Duration::new(3, 7));
}

#[test]
fn off_t_options_send_their_value() {
    let e = Easy::new();
    assert_eq!(e.resume_from(1024), off_t(30116, 1024));
    assert_eq!(e.in_filesize(7), off_t(30115, 7));
    assert_eq!(e.max_filesize(1 << 40), off_t(30117, 1 << 40));
    assert_eq!(e.max_send_speed(500), off_t(30145, 500));
    assert_eq!(e.max_recv_speed(600), off_t(30146, 600));
    assert_eq!(e.resume_from(u64::MAX), off_t(30116, -1));
}

#[test]
fn text_options_send_c_strings() {
    let e = Easy::new();
    assert_eq!(e.url("https://www.rust-lang.org/"), Ok(text(10002, "https://www.rust-lang.org/")));
    assert_eq!(e.proxy("http://proxy:3128"), Ok(text(10004, "http://proxy:3128")));
    assert_eq!(e.interface("eth0"), Ok(text(10062, "eth0")));
    assert_eq!(e.username("me"), Ok(text(10173, "me")));
    assert_eq!(e.password("pw"), Ok(text(10174, "pw")));
    assert_eq!(e.proxy_username("pu"), Ok(text(10175, "pu")));
    assert_eq!(e.proxy_password("pp"), Ok(text(10176, "pp")));
    assert_eq!(e.accept_encoding(""), Ok(text(10102, "")));
    assert_eq!(e.referer("r"), Ok(text(10016, "r")));
    assert_eq!(e.useragent("ua"), Ok(text(10018, "ua")));
    assert_eq!(e.cookie("a=b"), Ok(text(10022, "a=b")));
    assert_eq!(e.cookie_list("ALL"), Ok(text(10135, "ALL")));
    assert_eq!(e.range("0-99"), Ok(text(10007, "0-99")));
    assert_eq!(e.custom_request("DELETE"), Ok(text(10036, "DELETE")));
    assert_eq!(e.ssl_cert_type("PEM"), Ok(text(10086, "PEM")));
    assert_eq!(e.ssl_key_type("DER"), Ok(text(10088, "DER")));
    assert_eq!(e.key_password("k"), Ok(text(10026, "k")));
    assert_eq!(e.ssl_engine("dynamic"), Ok(text(10089, "dynamic")));
    assert_eq!(e.ssl_cipher_list("HIGH"), Ok(text(10083, "HIGH")));
    assert_eq!(e.ssl_engine_default(true), long(90, 1));
}

#[test]
fn noproxy_sets_the_noproxy_option() {
    let e = Easy::new();
    assert_eq!(e.noproxy("localhost,*.local"), Ok(text(sys::CURLOPT_NOPROXY, "localhost,*.local")));
    assert_eq!(sys::CURLOPT_NOPROXY, 10177);
}

#[test]
fn text_with_nul_is_refused() {
    let e = Easy::new();
    assert_eq!(e.url("http://a\0b"), Err(conv_failed()));
    assert_eq!(e.useragent("\0"), Err(conv_failed()));
    assert_eq!(e.cainfo(b"/etc/\0ssl"), Err(conv_failed()));
}

#[test]
fn path_options_send_the_path_bytes() {
    let e = Easy::new();
    let p = b"/etc/ssl/certs/ca.pem";
    let want = |o: u32| Ok(Setopt { option: o, value: OptValue::Str(p.to_vec()) });
    assert_eq!(e.cookie_file(p), want(10031));
    assert_eq!(e.cookie_jar(p), want(10082));
    assert_eq!(e.ssl_cert(p), want(10025));
    assert_eq!(e.ssl_key(p), want(10087));
    assert_eq!(e.cainfo(p), want(10065));
    assert_eq!(e.issuer_cert(p), want(10170));
    assert_eq!(e.capath(p), want(10097));
    assert_eq!(e.crlfile(p), want(10169));
    assert_eq!(e.random_file(p), want(10076));
    assert_eq!(e.egd_socket(p), want(10077));
}

fn callback_plan(f: u32, d: u32, k: Callback) -> Vec<Setopt<'static>> {
    vec![
        Setopt { option: f, value: OptValue::Callback(k) },
        Setopt { option: d, value: OptValue::CallbackData },
    ]
}

#[test]
fn callbacks_install_function_then_data() {
    let e = Easy::new();
    assert_eq!(e.write_function(), callback_plan(20011, 10001, Callback::Write));
    assert_eq!(e.read_function(), callback_plan(20012, 10009, Callback::Read));
    assert_eq!(e.seek_function(), callback_plan(20167, 10168, Callback::Seek));
    assert_eq!(e.progress_function(), callback_plan(20219, 10057, Callback::Progress));
    assert_eq!(e.debug_function(), callback_plan(20094, 10095, Callback::Debug));
    assert_eq!(e.header_function(), callback_plan(20079, 10029, Callback::Header));
}

#[test]
fn post_fields_set_size_before_pointer() {
    let e = Easy::new();
    let data = b"name=value";
    assert_eq!(
        e.post_fields(data),
        vec![
            Setopt { option: 10015, value: OptValue::Null },
            off_t(30120, 10),
            Setopt { option: 10015, value: OptValue::Data(&data[..]) },
        ]
    );
    assert_eq!(
        e.post_fields_copy(b""),
        vec![
            Setopt { option: 10015, value: OptValue::Null },
            off_t(30120, 0),
            Setopt { option: 10165, value: OptValue::Data(&b""[..]) },
        ]
    );
    assert_eq!(
        e.post_field_size(42),
        vec![Setopt { option: 10015, value: OptValue::Null }, off_t(30120, 42)]
    );
}

#[test]
fn http_headers_are_kept_by_the_handle() {
    let mut e = Easy::new();
    assert_eq!(e.header_list().iter().next(), None);
    let mut l = List::new();
    l.append("Accept: text/html").unwrap();
    let s = e.http_headers(l);
    assert_eq!(s, Setopt { option: 10023, value: OptValue::HeaderList });
    let mut it = e.header_list().iter();
    assert_eq!(it.next(), Some(&b"Accept: text/html"[..]));
    assert_eq!(it.next(), None);
}

#[test]
fn default_configuration_disables_signals_and_trusts_system_certs() {
    let e = Easy::new();
    let certs = CertLocations {
        cert_file: Some(b"/etc/ssl/cert.pem".to_vec()),
        cert_dir: Some(b"/etc/ssl/certs".to_vec()),
    };
    assert_eq!(
        e.default_configure(&certs),
        vec![
            long(99, 1),
            Setopt { option: 10065, value: OptValue::Str(b"/etc/ssl/cert.pem".to_vec()) },
            Setopt { option: 10097, value: OptValue::Str(b"/etc/ssl/certs".to_vec()) },
        ]
    );
    let none = CertLocations { cert_file: None, cert_dir: None };
    assert_eq!(e.default_configure(&none), vec![long(99, 1)]);
    let bad = CertLocations { cert_file: Some(b"a\0b".to_vec()), cert_dir: Some(b"/d".to_vec()) };
    assert_eq!(
        e.ssl_configure(&bad),
        vec![Setopt { option: 10097, value: OptValue::Str(b"/d".to_vec()) }]
    );
}

#[test]
fn reset_configures_like_a_new_handle() {
    let e = Easy::new();
    let certs = CertLocations { cert_file: Some(b"/f".to_vec()), cert_dir: None };
    assert_eq!(e.reset(&certs), e.default_configure(&certs));
}

#[test]
fn long_information_is_converted() {
    let e = Easy::new();
    assert_eq!(e.response_code(long_answer(sys::CURLINFO_RESPONSE_CODE, 0, 200)), Ok(200));
    assert_eq!(e.response_code(long_answer(sys::CURLINFO_RESPONSE_CODE, 43, 200)), Err(Error::new(43)));
    assert_eq!(e.http_connectcode(long_answer(sys::CURLINFO_HTTP_CONNECTCODE, 0, 0)), Ok(0));
    assert_eq!(e.redirect_count(long_answer(sys::CURLINFO_REDIRECT_COUNT, 0, 3)), Ok(3));
    assert_eq!(e.header_size(long_answer(sys::CURLINFO_HEADER_SIZE, 0, 512)), Ok(512));
    assert_eq!(e.request_size(long_answer(sys::CURLINFO_REQUEST_SIZE, 0, 77)), Ok(77));
    assert_eq!(e.os_errno(long_answer(sys::CURLINFO_OS_ERRNO, 0, 111)), Ok(111));
    assert_eq!(e.primary_port(long_answer(sys::CURLINFO_PRIMARY_PORT, 0, 443)), Ok(443));
    assert_eq!(e.local_port(long_answer(sys::CURLINFO_LOCAL_PORT, 0, 51000)), Ok(51000));
    assert_eq!(e.local_port(long_answer(sys::CURLINFO_LOCAL_PORT, 48, 0)), Err(Error::new(48)));
}

#[test]
fn long_information_casts_like_the_c_types() {
    let e = Easy::new();
    assert_eq!(e.response_code(long_answer(sys::CURLINFO_RESPONSE_CODE, 0, -1)), Ok(u32::MAX));
    assert_eq!(e.header_size(long_answer(sys::CURLINFO_HEADER_SIZE, 0, -1)), Ok(u64::MAX));
    assert_eq!(e.primary_port(long_answer(sys::CURLINFO_PRIMARY_PORT, 0, 70000)), Ok(4464));
    assert_eq!(e.os_errno(long_answer(sys::CURLINFO_OS_ERRNO, 0, 1 << 32)), Ok(0));
}

#[test]
fn filetime_minus_one_means_unknown() {
    let e = Easy::new();
    assert_eq!(e.filetime(long_answer(sys::CURLINFO_FILETIME, 0, -1)), Ok(None));
    assert_eq!(e.filetime(long_answer(sys::CURLINFO_FILETIME, 0, 1_700_000_000)), Ok(Some(1_700_000_000)));
    assert_eq!(e.filetime(long_answer(sys::CURLINFO_FILETIME, 0, 0)), Ok(Some(0)));
    assert_eq!(e.filetime(long_answer(sys::CURLINFO_FILETIME, 2, -1)), Err(Error::new(2)));
}

#[test]
fn text_information_is_checked_utf8() {
    let e = Easy::new();
    assert_eq!(
        e.effective_url(text_answer(sys::CURLINFO_EFFECTIVE_URL, 0, Some(b"https://example.com/"))),
        Ok(Some("https://example.com/".to_string()))
    );
    assert_eq!(e.effective_url(text_answer(sys::CURLINFO_EFFECTIVE_URL, 0, None)), Ok(None));
    assert_eq!(e.redirect_url(text_answer(sys::CURLINFO_REDIRECT_URL, 0, Some(&[0xff, 0xfe][..]))), Err(conv_failed()));
    assert_eq!(e.content_type(text_answer(sys::CURLINFO_CONTENT_TYPE, 0, Some("text/html; charset=é".as_bytes()))), Ok(Some("text/html; charset=é".to_string())));
    assert_eq!(e.primary_ip(text_answer(sys::CURLINFO_PRIMARY_IP, 7, Some(b"127.0.0.1"))), Err(Error::new(7)));
    assert_eq!(e.local_ip(text_answer(sys::CURLINFO_LOCAL_IP, 0, Some(b"::1"))), Ok(Some("::1".to_string())));
}

#[test]
fn byte_information_passes_through() {
    let e = Easy::new();
    assert_eq!(e.effective_url_bytes(text_answer(sys::CURLINFO_EFFECTIVE_URL, 0, Some(&[0xff][..]))), Err(conv_failed()));
    assert_eq!(
        e.effective_url_bytes(text_answer(sys::CURLINFO_EFFECTIVE_URL, 0, Some(b"http://h/"))),
        Ok(Some(b"http://h/".to_vec()))
    );
    assert_eq!(e.redirect_url_bytes(text_answer(sys::CURLINFO_REDIRECT_URL, 0, Some(&[0xff][..]))), Ok(Some(vec![0xff])));
    assert_eq!(e.redirect_url_bytes(text_answer(sys::CURLINFO_REDIRECT_URL, 0, None)), Ok(None));
    assert_eq!(e.content_type_bytes(text_answer(sys::CURLINFO_CONTENT_TYPE, 5, Some(b"x"))), Err(Error::new(5)));
}

#[test]
fn cookies_become_a_list() {
    let e = Easy::new();
    let l = e
        .cookies(|info| {
            assert_eq!(info, sys::CURLINFO_COOKIELIST);
            (0, vec![b"a\tb".to_vec(), b"c".to_vec()])
        })
        .unwrap();
    let mut it = l.iter();
    assert_eq!(it.next(), Some(&b"a\tb"[..]));
    assert_eq!(it.next(), Some(&b"c"[..]));
    assert_eq!(it.next(), None);
    assert_eq!(e.cookies(|_| (48, vec![])).unwrap_err(), Error::new(48));
}

#[test]
fn url_encode_of_empty_needs_no_libcurl() {
    let e = Easy::new();
    assert_eq!(e.url_encode(b""), Some(String::new()));
    assert_eq!(e.url_encode(b"a b"), None);
    assert_eq!(e.url_encoded(b"a%20b"), Some("a%20b".to_string()));
    assert_eq!(e.url_encoded(&[0xc3]), None);
}

#[test]
fn url_decode_guards_a_trailing_escape() {
    let e = Easy::new();
    assert_eq!(e.url_decode(""), Decode::Done(Vec::new()));
    let q = ask(e.url_decode("abc"));
    assert_eq!((q.buffer, q.len), (b"abc".to_vec(), 3));
    let q = ask(e.url_decode("ab%"));
    assert_eq!((q.buffer, q.len), (b"ab%\0".to_vec(), 3));
    let q = ask(e.url_decode("%2"));
    assert_eq!((q.buffer, q.len), (b"%2\0".to_vec(), 2));
    let q = ask(e.url_decode("x%20"));
    assert_eq!((q.buffer, q.len), (b"x%20\0".to_vec(), 4));
    let q = ask(e.url_decode("%abc"));
    assert_eq!((q.buffer, q.len), (b"%abc".to_vec(), 4));
}

#[test]
fn url_decode_counts_characters_not_bytes() {
    let e = Easy::new();
    let s = "%éé";
    let q = ask(e.url_decode(s));
    let mut want = s.as_bytes().to_vec();
    want.push(0);
    assert_eq!((q.buffer, q.len), (want, 5));
    let q = ask(e.url_decode("%aéé"));
    assert_eq!(q.buffer, "%aéé".as_bytes().to_vec());
}

#[test]
fn transfers_report_libcurl_codes() {
    let e = Easy::new();
    assert_eq!(e.perform(0), Ok(()));
    assert_eq!(e.perform(7), Err(Error::new(7)));
    assert_eq!(e.recv(0, 12), Ok(12));
    assert_eq!(e.recv(81, 0), Err(Error::new(81)));
    assert_eq!(e.send(0, 5), Ok(5));
    assert_eq!(e.send(55, 5), Err(Error::new(55)));
}

#[test]
fn callback_results_for_libcurl() {
    assert_eq!(transfer_callback_result(Some(17)), 17);
    assert_eq!(transfer_callback_result(None), usize::MAX);
    assert_eq!(seek_target(sys::SEEK_SET, 100), Some(100));
    assert_eq!(seek_target(1, 100), None);
    assert_eq!(seek_target(2, 0), None);
    assert_eq!(seek_target(0, -1), Some(u64::MAX));
    assert_eq!(seek_callback_result(Some(SeekResult::Success)), 0);
    assert_eq!(seek_callback_result(Some(SeekResult::Fail)), 1);
    assert_eq!(seek_callback_result(Some(SeekResult::CantSeek)), 2);
    assert_eq!(seek_callback_result(None), -1);
    assert_eq!(progress_callback_result(Some(true)), 0);
    assert_eq!(progress_callback_result(Some(false)), 1);
    assert_eq!(progress_callback_result(None), 1);
    assert_eq!(header_callback_result(Some(true), 1, 27), 27);
    assert_eq!(header_callback_result(Some(false), 1, 27), usize::MAX);
    assert_eq!(header_callback_result(None, 4, 4), usize::MAX);
}

#[test]
fn debug_kinds_map_from_libcurl() {
    assert_eq!(InfoType::from_raw(0), Some(InfoType::Text));
    assert_eq!(InfoType::from_raw(1), Some(InfoType::HeaderIn));
    assert_eq!(InfoType::from_raw(2), Some(InfoType::HeaderOut));
    assert_eq!(InfoType::from_raw(3), Some(InfoType::DataIn));
    assert_eq!(InfoType::from_raw(4), Some(InfoType::DataOut));
    assert_eq!(InfoType::from_raw(5), Some(InfoType::SslDataIn));
    assert_eq!(InfoType::from_raw(6), Some(InfoType::SslDataOut));
    assert_eq!(InfoType::from_raw(7), None);
    assert_eq!(InfoType::from_raw(u32::MAX), None);
}

#[test]
fn error_keeps_its_code() {
    let e = Error::new(28);
    assert_eq!(e.code(), 28);
    assert_eq!(Error::conv_failed().code(), 75);
}

#[test]
fn debug_callback_answers_zero_for_every_kind() {
    assert_eq!(debug_callback_result(1), (Some(InfoType::HeaderIn), 0));
    assert_eq!(debug_callback_result(6), (Some(InfoType::SslDataOut), 0));
    assert_eq!(debug_callback_result(42), (None, 0));
}

#[test]
fn plans_stop_at_the_first_refusal() {
    assert_eq!(next_step(&[], 2), Step::Make(0));
    assert_eq!(next_step(&[0], 2), Step::Make(1));
    assert_eq!(next_step(&[0, 0], 2), Step::Finish(Ok(())));
    assert_eq!(next_step(&[0, 48], 3), Step::Finish(Err(Error::new(48))));
    assert_eq!(next_step(&[4], 3), Step::Finish(Err(Error::new(4))));
    assert_eq!(next_step(&[], 0), Step::Finish(Ok(())));
}

#[test]
fn url_decode_failure_is_none() {
    let e = Easy::new();
    assert_eq!(e.url_decoded(None), None);
    assert_eq!(e.url_decoded(Some(b"a b")), Some(b"a b".to_vec()));
}

#[test]
fn header_callback_with_refusal_needs_no_length() {
    assert_eq!(header_callback_result(Some(false), usize::MAX, 2), usize::MAX);
    assert_eq!(header_callback_result(None, usize::MAX, 2), usize::MAX);
}
