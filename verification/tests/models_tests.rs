use isracard_payment::models::{AuthRequest, CreateSaleRequest, Currency};

#[test]
fn currency_symbols_and_flags() {
    assert_eq!(Currency::ILS.symbol(), "₪");
    assert_eq!(Currency::USD.symbol(), "$");
    assert_eq!(Currency::EUR.symbol(), "€");
    assert_eq!(Currency::ILS.flag(), "🇮🇱");
    assert_eq!(Currency::USD.flag(), "🇺🇸");
    assert_eq!(Currency::EUR.flag(), "🇪🇺");
}

#[test]
fn currency_text_is_its_code() {
    assert_eq!(Currency::ILS.to_string(), "ILS");
    assert_eq!(Currency::USD.to_string(), "USD");
    assert_eq!(Currency::EUR.to_string(), "EUR");
    assert_eq!(Currency::EUR.code(), "EUR");
}

#[test]
fn currency_reads_back_its_code() {
    for c in [Currency::ILS, Currency::USD, Currency::EUR] {
        assert_eq!(Currency::from_str(&c.to_string()), Ok(c));
        assert_eq!(c.to_string().parse::<Currency>(), Ok(c));
    }
}

#[test]
fn unknown_currency_is_refused() {
    assert_eq!(Currency::from_str("GBP"), Err("Unknown currency: GBP".to_string()));
    assert_eq!(Currency::from_str("usd"), Err("Unknown currency: usd".to_string()));
    assert_eq!(Currency::from_str(" ILS"), Err("Unknown currency:  ILS".to_string()));
    assert_eq!(Currency::from_str(""), Err("Unknown currency: ".to_string()));
}

#[test]
fn auth_request_has_no_captcha() {
    let r = AuthRequest::new("a@b.c".to_string(), "pw".to_string());
    assert_eq!(r.captcha, None);
    assert_eq!(r.email, "a@b.c");
    assert_eq!(r.password_open, "pw");
}

#[test]
fn sale_request_is_one_payment_by_template() {
    let r = CreateSaleRequest::new("Coffee".to_string(), Currency::USD, 150);
    assert_eq!(r.currency, "USD");
    assert_eq!(r.installments, 1);
    assert_eq!(r.payment_method, "multi");
    assert_eq!(r.payment_type, "template");
    assert_eq!(r.price, 150);
    assert_eq!(r.product_name, "Coffee");
}
