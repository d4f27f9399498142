use isracard_payment::isracard::{
    auth_url, sales_url, IsracardClient, Phase, SaleEvent, SaleStep,
};
use isracard_payment::models::{AuthRequest, Currency};

fn client() -> IsracardClient {
    IsracardClient::new("me@shop.example".to_string(), "secret".to_string())
}

fn login() -> SaleStep {
    SaleStep::PostAuth(AuthRequest::new("me@shop.example".to_string(), "secret".to_string()))
}

#[test]
fn endpoints() {
    assert_eq!(auth_url(), "https://www.isracard360.co.il/api/v2/auth");
    assert_eq!(sales_url(), "https://www.isracard360.co.il/api/v2/sales");
}

#[test]
fn new_client_has_no_session() {
    assert_eq!(client().token(), None);
}

#[test]
fn first_link_logs_in_then_sells() {
    let mut c = client();
    let (mut flow, step) = c.start_payment_link("Tea".to_string(), Currency::USD, 10);
    assert_eq!(step, login());
    assert_eq!(flow.phase, Phase::AuthResponse);
    assert_eq!(flow.body.product_name, "Tea");
    assert_eq!(c.advance(&mut flow, SaleEvent::Sent(Ok(200))), SaleStep::ReadAuthBody);
    assert_eq!(
        c.advance(&mut flow, SaleEvent::AuthBody(Ok("tok1".to_string()))),
        SaleStep::PostSale { token: "tok1".to_string() }
    );
    assert_eq!(c.token(), Some("tok1".to_string()));
    assert_eq!(c.advance(&mut flow, SaleEvent::Sent(Ok(201))), SaleStep::ReadSaleBody);
    assert_eq!(
        c.advance(&mut flow, SaleEvent::SaleBody(Ok("https://pay/1".to_string()))),
        SaleStep::Done(Ok("https://pay/1".to_string()))
    );
    assert_eq!(flow.phase, Phase::Finished);

    // The next link uses the stored token.
    let (flow2, step2) = c.start_payment_link("Cake".to_string(), Currency::ILS, 20);
    assert_eq!(step2, SaleStep::PostSale { token: "tok1".to_string() });
    assert_eq!(flow2.phase, Phase::SaleResponse);
}

fn logged_in() -> IsracardClient {
    let mut c = client();
    let (mut flow, _) = c.start_payment_link("X".to_string(), Currency::USD, 1);
    c.advance(&mut flow, SaleEvent::Sent(Ok(200)));
    c.advance(&mut flow, SaleEvent::AuthBody(Ok("old".to_string())));
    c
}

#[test]
fn expired_token_is_renewed_once() {
    let mut c = logged_in();
    let (mut flow, step) = c.start_payment_link("Tea".to_string(), Currency::EUR, 5);
    assert_eq!(step, SaleStep::PostSale { token: "old".to_string() });
    assert_eq!(c.advance(&mut flow, SaleEvent::Sent(Ok(401))), login());
    assert!(flow.retried);
    assert_eq!(c.advance(&mut flow, SaleEvent::Sent(Ok(200))), SaleStep::ReadAuthBody);
    assert_eq!(
        c.advance(&mut flow, SaleEvent::AuthBody(Ok("new".to_string()))),
        SaleStep::PostSale { token: "new".to_string() }
    );
    assert_eq!(c.token(), Some("new".to_string()));
    assert_eq!(
        c.advance(&mut flow, SaleEvent::Sent(Ok(401))),
        SaleStep::Done(Err("Sales failed with status 401 Unauthorized".to_string()))
    );
}

#[test]
fn renewed_token_can_succeed() {
    let mut c = logged_in();
    let (mut flow, _) = c.start_payment_link("Tea".to_string(), Currency::EUR, 5);
    c.advance(&mut flow, SaleEvent::Sent(Ok(401)));
    c.advance(&mut flow, SaleEvent::Sent(Ok(200)));
    c.advance(&mut flow, SaleEvent::AuthBody(Ok("new".to_string())));
    assert_eq!(c.advance(&mut flow, SaleEvent::Sent(Ok(200))), SaleStep::ReadSaleBody);
    assert_eq!(
        c.advance(&mut flow, SaleEvent::SaleBody(Ok("u".to_string()))),
        SaleStep::Done(Ok("u".to_string()))
    );
}

#[test]
fn login_errors() {
    let mut c = client();
    let (mut flow, _) = c.start_payment_link("Tea".to_string(), Currency::USD, 1);
    assert_eq!(
        c.advance(&mut flow, SaleEvent::Sent(Err("timed out".to_string()))),
        SaleStep::Done(Err("Auth request failed: timed out".to_string()))
    );
    let (mut flow, _) = c.start_payment_link("Tea".to_string(), Currency::USD, 1);
    assert_eq!(
        c.advance(&mut flow, SaleEvent::Sent(Ok(403))),
        SaleStep::Done(Err("Auth failed with status 403 Forbidden".to_string()))
    );
    let (mut flow, _) = c.start_payment_link("Tea".to_string(), Currency::USD, 1);
    c.advance(&mut flow, SaleEvent::Sent(Ok(200)));
    assert_eq!(
        c.advance(&mut flow, SaleEvent::AuthBody(Err("missing field `payload`".to_string()))),
        SaleStep::Done(Err("Failed to parse auth response: missing field `payload`".to_string()))
    );
    assert_eq!(c.token(), None);
}

#[test]
fn sale_errors() {
    let mut c = logged_in();
    let (mut flow, _) = c.start_payment_link("Tea".to_string(), Currency::USD, 1);
    assert_eq!(
        c.advance(&mut flow, SaleEvent::Sent(Err("dns".to_string()))),
        SaleStep::Done(Err("Sales request failed: dns".to_string()))
    );
    let (mut flow, _) = c.start_payment_link("Tea".to_string(), Currency::USD, 1);
    assert_eq!(
        c.advance(&mut flow, SaleEvent::Sent(Ok(500))),
        SaleStep::Done(Err("Sales failed with status 500 Internal Server Error".to_string()))
    );
    let (mut flow, _) = c.start_payment_link("Tea".to_string(), Currency::USD, 1);
    c.advance(&mut flow, SaleEvent::Sent(Ok(200)));
    assert_eq!(
        c.advance(&mut flow, SaleEvent::SaleBody(Err("bad json".to_string()))),
        SaleStep::Done(Err("Failed to parse sales response: bad json".to_string()))
    );
    let (mut flow, _) = c.start_payment_link("Tea".to_string(), Currency::USD, 1);
    c.advance(&mut flow, SaleEvent::Sent(Ok(401)));
    c.advance(&mut flow, SaleEvent::Sent(Ok(200)));
    c.advance(&mut flow, SaleEvent::AuthBody(Ok("t2".to_string())));
    assert_eq!(
        c.advance(&mut flow, SaleEvent::Sent(Err("reset".to_string()))),
        SaleStep::Done(Err("Sales retry failed: reset".to_string()))
    );
}

#[test]
fn unknown_status_is_shown_with_its_code() {
    let mut c = logged_in();
    let (mut flow, _) = c.start_payment_link("Tea".to_string(), Currency::USD, 1);
    match c.advance(&mut flow, SaleEvent::Sent(Ok(599))) {
        SaleStep::Done(Err(e)) => assert!(e.starts_with("Sales failed with status 599 ")),
        other => panic!("unexpected {:?}", other),
    }
}

#[test]
fn longest_flow_takes_seven_answers() {
    let mut c = client();
    let (mut flow, mut step) = c.start_payment_link("Tea".to_string(), Currency::USD, 1);
    let answers = vec![
        SaleEvent::Sent(Ok(200)),
        SaleEvent::AuthBody(Ok("a".to_string())),
        SaleEvent::Sent(Ok(401)),
        SaleEvent::Sent(Ok(200)),
        SaleEvent::AuthBody(Ok("b".to_string())),
        SaleEvent::Sent(Ok(200)),
        SaleEvent::SaleBody(Ok("url".to_string())),
    ];
    let mut count = 0;
    let mut logins = 0;
    let mut sales = 0;
    for ev in answers {
        assert!(!matches!(step, SaleStep::Done(_)));
        match &step {
            SaleStep::PostAuth(_) => logins += 1,
            SaleStep::PostSale { .. } => sales += 1,
            _ => {}
        }
        step = c.advance(&mut flow, ev);
        count += 1;
    }
    assert_eq!(count, 7);
    assert_eq!((logins, sales), (2, 2));
    assert_eq!(step, SaleStep::Done(Ok("url".to_string())));
    assert_eq!(flow.phase, Phase::Finished);
}
