use arcgis::authorize::{health_check, AuthRequest, ClientType, FormatOptions};

#[test]
fn body_fixed_example() {
    let mut req = AuthRequest::new("alice", "p", "example.com");
    req.set_client(&ClientType::RequestIp);
    req.set_f(&FormatOptions::Json);
    assert_eq!(
        req.body(),
        "username=alice@example.com&password=p&client=requestip&f=json"
    );
}

#[test]
fn body_defaults_to_html_and_request_ip() {
    let req = AuthRequest::new("u", "pw", "h.org");
    assert_eq!(req.body(), "username=u@h.org&password=pw&client=requestip&f=html");
}

#[test]
fn body_is_order_stable() {
    let mut req = AuthRequest::new("alice", "p", "example.com");
    req.set_client(&ClientType::Referer("https://site".to_string()));
    req.referer("https://site");
    req.ip("10.0.0.1");
    req.expiration(120);
    req.set_f(&FormatOptions::Pjson);
    let first = req.body();
    let second = req.body();
    assert_eq!(first, second);
}

#[test]
fn body_includes_optionals_in_fixed_order() {
    let mut req = AuthRequest::new("u", "pw", "h");
    req.set_client(&ClientType::Ip("10.0.0.9".to_string()));
    req.referer("r.example");
    req.ip("10.0.0.1");
    req.expiration(60);
    req.set_f(&FormatOptions::Json);
    assert_eq!(
        req.body(),
        "username=u@h&password=pw&client=10.0.0.9&referer=r.example&ip=10.0.0.1&expiration=60&f=json"
    );
}

#[test]
fn body_renders_negative_expiration() {
    let mut req = AuthRequest::new("u", "pw", "h");
    req.expiration(-5);
    assert_eq!(req.body(), "username=u@h&password=pw&client=requestip&expiration=-5&f=html");
}

#[test]
fn body_renders_large_expiration() {
    let mut req = AuthRequest::new("u", "pw", "h");
    req.expiration(i32::MAX);
    assert_eq!(
        req.body(),
        "username=u@h&password=pw&client=requestip&expiration=2147483647&f=html"
    );
}

#[test]
fn get_client_resolves_each_variant() {
    let req0 = AuthRequest::new("u", "pw", "h");
    assert_eq!(req0.get_client(), "requestip");
    let mut req = AuthRequest::new("u", "pw", "h");
    req.set_client(&ClientType::Referer("site".to_string()));
    assert_eq!(req.get_client(), "site");
    let mut req2 = AuthRequest::new("u", "pw", "h");
    req2.set_client(&ClientType::Ip("1.2.3.4".to_string()));
    assert_eq!(req2.get_client(), "1.2.3.4");
}

#[test]
fn get_f_resolves_each_variant() {
    let req = AuthRequest::new("u", "pw", "h");
    assert_eq!(req.get_f(), "html");
    let mut req2 = AuthRequest::new("u", "pw", "h");
    req2.set_f(&FormatOptions::Json);
    assert_eq!(req2.get_f(), "json");
    let mut req3 = AuthRequest::new("u", "pw", "h");
    req3.set_f(&FormatOptions::Pjson);
    assert_eq!(req3.get_f(), "pjson");
    health_check();
}
