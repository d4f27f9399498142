use vstd::prelude::*;

use crate::text::str_eq;

verus! {

/// A currency in which a payment link can be issued.
#[derive(Clone, Copy, Debug, PartialEq, Eq, Structural)]
pub enum Currency {
    ILS,
    USD,
    EUR,
}

impl Currency {
    /// The ISO 4217 code of the currency, as it is shown to users and sent to the API.
    pub open spec fn code_spec(self) -> Seq<char> {
        match self {
            Currency::ILS => "ILS"@,
            Currency::USD => "USD"@,
            Currency::EUR => "EUR"@,
        }
    }

    /// The sign written in front of an amount.
    pub open spec fn symbol_spec(self) -> Seq<char> {
        match self {
            Currency::ILS => "₪"@,
            Currency::USD => "$"@,
            Currency::EUR => "€"@,
        }
    }

    /// The flag emoji of the currency's country or union.
    pub open spec fn flag_spec(self) -> Seq<char> {
        match self {
            Currency::ILS => "🇮🇱"@,
            Currency::USD => "🇺🇸"@,
            Currency::EUR => "🇪🇺"@,
        }
    }

    pub fn symbol(&self) -> (s: &'static str)
        ensures
            s@ == self.symbol_spec(),
    {
        match self {
            Currency::ILS => "₪",
            Currency::USD => "$",
            Currency::EUR => "€",
        }
    }

    pub fn flag(&self) -> (s: &'static str)
        ensures
            s@ == self.flag_spec(),
    {
        match self {
            Currency::ILS => "🇮🇱",
            Currency::USD => "🇺🇸",
            Currency::EUR => "🇪🇺",
        }
    }

    /// The currency code as a string slice.
    pub fn code(&self) -> (s: &'static str)
        ensures
            s@ == self.code_spec(),
    {
        match self {
            Currency::ILS => "ILS",
            Currency::USD => "USD",
            Currency::EUR => "EUR",
        }
    }

    /// The currency whose code is `s`, if there is one.
    pub open spec fn parse_spec(s: Seq<char>) -> Option<Currency> {
        if s == "ILS"@ {
            Some(Currency::ILS)
        } else if s == "USD"@ {
            Some(Currency::USD)
        } else if s == "EUR"@ {
            Some(Currency::EUR)
        } else {
            None
        }
    }

    /// The message with which an unknown currency code is refused.
    pub open spec fn unknown_message(s: Seq<char>) -> Seq<char> {
        "Unknown currency: "@ + s
    }

    /// Reads a currency from its code (`"ILS"`, `"USD"` or `"EUR"`, exactly).
    pub fn from_str(s: &str) -> (r: Result<Currency, String>)
        ensures
            match r {
                Ok(c) => Currency::parse_spec(s@) == Some(c),
                Err(e) => Currency::parse_spec(s@) is None && e@ == Currency::unknown_message(s@),
            },
    {
        if str_eq(s, "ILS") {
            Ok(Currency::ILS)
        } else if str_eq(s, "USD") {
            Ok(Currency::USD)
        } else if str_eq(s, "EUR") {
            Ok(Currency::EUR)
        } else {
            let mut e = String::from_str("Unknown currency: ");
            e.append(s);
            Err(e)
        }
    }

    /// The text form of the currency: its code.
    pub fn to_string(&self) -> (s: String)
        ensures
            s@ == self.code_spec(),
    {
        String::from_str(self.code())
    }
}

impl std::str::FromStr for Currency {
    type Err = String;

    fn from_str(s: &str) -> (r: Result<Currency, String>)
        ensures
            match r {
                Ok(c) => Currency::parse_spec(s@) == Some(c),
                Err(e) => Currency::parse_spec(s@) is None && e@ == Currency::unknown_message(s@),
            },
    {
        Currency::from_str(s)
    }
}

/// A sale body for a product carries the product's name character for
/// character, the price as given, one installment, and the currency's code.
pub proof fn sale_request_carries_name_unchanged(
    r: CreateSaleRequest,
    name: Seq<char>,
    currency: Currency,
    price: u32,
)
    requires
        r.describes(name, currency, price),
    ensures
        r.product_name@ == name,
        r.price == price,
        r.installments == 1,
        Currency::parse_spec(r.currency@) == Some(currency),
{
    currency_code_roundtrip(currency);
}

/// Reading a currency back from its code gives the same currency.
pub proof fn currency_code_roundtrip(c: Currency)
    ensures
        Currency::parse_spec(c.code_spec()) == Some(c),
{
    reveal_strlit("ILS");
    reveal_strlit("USD");
    reveal_strlit("EUR");
    assert("USD"@[0] != "ILS"@[0]);
    assert("EUR"@[0] != "ILS"@[0]);
    assert("EUR"@[0] != "USD"@[0]);
}

// --- Auth ---

/// Body of the login request.
#[derive(Clone, Debug, PartialEq, Eq)]
pub struct AuthRequest {
    pub captcha: Option<String>,
    pub email: String,
    pub password_open: String,
}

impl AuthRequest {
    /// The login body for the given credentials; no captcha is sent.
    pub fn new(email: String, password: String) -> (r: AuthRequest)
        ensures
            r.captcha is None,
            r.email@ == email@,
            r.password_open@ == password@,
    {
        AuthRequest { captcha: None, email, password_open: password }
    }
}

/// Reply of the login request.
#[derive(Clone, Debug, PartialEq, Eq)]
pub struct AuthResponse {
    pub payload: AuthPayload,
}

#[derive(Clone, Debug, PartialEq, Eq)]
pub struct AuthPayload {
    pub token: String,
}

// --- Sales ---

/// Body of the request that creates a sale (a payment page).
#[derive(Clone, Debug, PartialEq, Eq)]
pub struct CreateSaleRequest {
    pub currency: String,
    pub installments: u32,
    pub payment_method: String,
    pub payment_type: String,
    pub price: u32,
    pub product_name: String,
}

impl CreateSaleRequest {
    /// Whether this is the body that asks for a one-installment payment page of
    /// `price` in `currency` for the product `name`.
    pub open spec fn describes(self, name: Seq<char>, currency: Currency, price: u32) -> bool {
        &&& self.currency@ == currency.code_spec()
        &&& self.installments == 1
        &&& self.payment_method@ == "multi"@
        &&& self.payment_type@ == "template"@
        &&& self.price == price
        &&& self.product_name@ == name
    }

    /// The body of a sale for one payment of `price` in `currency`, paid by any
    /// method, through the page template.
    pub fn new(name: String, currency: Currency, price: u32) -> (r: CreateSaleRequest)
        ensures
            r.describes(name@, currency, price),
            r.product_name@ == name@,
            r.price == price,
    {
        CreateSaleRequest {
            currency: currency.to_string(),
            installments: 1,
            payment_method: String::from_str("multi"),
            payment_type: String::from_str("template"),
            price,
            product_name: name,
        }
    }
}

/// Reply of the sale request.
#[derive(Clone, Debug, PartialEq, Eq)]
pub struct CreateSaleResponse {
    pub payload: SalePayload,
}

#[derive(Clone, Debug, PartialEq, Eq)]
pub struct SalePayload {
    pub sale_url: String,
}

} // verus!
