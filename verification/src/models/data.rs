//! Store-wide vocabulary.
use vstd::prelude::*;

verus! {

/// A currency, named by its three-letter ISO code.
#[allow(clippy::upper_case_acronyms)]
#[derive(Clone, Copy, Debug, PartialEq, Eq, Structural)]
pub enum CurrencyISO {
    AED,
    AFN,
    ALL,
    AMD,
    ANG,
    AOA,
    ARS,
    AUD,
    AWG,
    AZN,
    BAM,
    BBD,
    BDT,
    BGN,
    BHD,
    BIF,
    BMD,
    BND,
    BOB,
    BRL,
    BSD,
    BTC,
    BTN,
    BWP,
    BYR,
    BZD,
    CAD,
    CDF,
    CHF,
    CLP,
    CNY,
    COP,
    CRC,
    CUC,
    CUP,
    CVE,
    CZK,
    DJF,
    DKK,
    DOP,
    DZD,
    EGP,
    ERN,
    ETB,
    EUR,
    FJD,
    FKP,
    GBP,
    GEL,
    GGP,
    GHS,
    GIP,
    GMD,
    GNF,
    GTQ,
    GYD,
    HKD,
    HNL,
    HRK,
    HTG,
    HUF,
    IDR,
    ILS,
    IMP,
    INR,
    IQD,
    IRR,
    IRT,
    ISK,
    JEP,
    JMD,
    JOD,
    JPY,
    KES,
    KGS,
    KHR,
    KMF,
    KPW,
    KRW,
    KWD,
    KYD,
    KZT,
    LAK,
    LBP,
    LKR,
    LRD,
    LSL,
    LYD,
    MAD,
    MDL,
    MGA,
    MKD,
    MMK,
    MNT,
    MOP,
    MRO,
    MUR,
    MVR,
    MWK,
    MXN,
    MYR,
    MZN,
    NAD,
    NGN,
    NIO,
    NOK,
    NPR,
    NZD,
    OMR,
    PAB,
    PEN,
    PGK,
    PHP,
    PKR,
    PLN,
    PRB,
    PYG,
    QAR,
    RON,
    RSD,
    RUB,
    RWF,
    SAR,
    SBD,
    SCR,
    SDG,
    SEK,
    SGD,
    SHP,
    SLL,
    SOS,
    SRD,
    SSP,
    STD,
    SYP,
    SZL,
    THB,
    TJS,
    TMT,
    TND,
    TOP,
    TRY,
    TTD,
    TWD,
    TZS,
    UAH,
    UGX,
    USD,
    UYU,
    UZS,
    VEF,
    VND,
    VUV,
    WST,
    XAF,
    XCD,
    XOF,
    XPF,
    YER,
    ZAR,
    ZMW,
}

impl CurrencyISO {
    /// The three-letter code of this currency.
    pub open spec fn code(self) -> Seq<char> {
        match self {
            CurrencyISO::AED => "AED"@,
            CurrencyISO::AFN => "AFN"@,
            CurrencyISO::ALL => "ALL"@,
            CurrencyISO::AMD => "AMD"@,
            CurrencyISO::ANG => "ANG"@,
            CurrencyISO::AOA => "AOA"@,
            CurrencyISO::ARS => "ARS"@,
            CurrencyISO::AUD => "AUD"@,
            CurrencyISO::AWG => "AWG"@,
            CurrencyISO::AZN => "AZN"@,
            CurrencyISO::BAM => "BAM"@,
            CurrencyISO::BBD => "BBD"@,
            CurrencyISO::BDT => "BDT"@,
            CurrencyISO::BGN => "BGN"@,
            CurrencyISO::BHD => "BHD"@,
            CurrencyISO::BIF => "BIF"@,
            CurrencyISO::BMD => "BMD"@,
            CurrencyISO::BND => "BND"@,
            CurrencyISO::BOB => "BOB"@,
            CurrencyISO::BRL => "BRL"@,
            CurrencyISO::BSD => "BSD"@,
            CurrencyISO::BTC => "BTC"@,
            CurrencyISO::BTN => "BTN"@,
            CurrencyISO::BWP => "BWP"@,
            CurrencyISO::BYR => "BYR"@,
            CurrencyISO::BZD => "BZD"@,
            CurrencyISO::CAD => "CAD"@,
            CurrencyISO::CDF => "CDF"@,
            CurrencyISO::CHF => "CHF"@,
            CurrencyISO::CLP => "CLP"@,
            CurrencyISO::CNY => "CNY"@,
            CurrencyISO::COP => "COP"@,
            CurrencyISO::CRC => "CRC"@,
            CurrencyISO::CUC => "CUC"@,
            CurrencyISO::CUP => "CUP"@,
            CurrencyISO::CVE => "CVE"@,
            CurrencyISO::CZK => "CZK"@,
            CurrencyISO::DJF => "DJF"@,
            CurrencyISO::DKK => "DKK"@,
            CurrencyISO::DOP => "DOP"@,
            CurrencyISO::DZD => "DZD"@,
            CurrencyISO::EGP => "EGP"@,
            CurrencyISO::ERN => "ERN"@,
            CurrencyISO::ETB => "ETB"@,
            CurrencyISO::EUR => "EUR"@,
            CurrencyISO::FJD => "FJD"@,
            CurrencyISO::FKP => "FKP"@,
            CurrencyISO::GBP => "GBP"@,
            CurrencyISO::GEL => "GEL"@,
            CurrencyISO::GGP => "GGP"@,
            CurrencyISO::GHS => "GHS"@,
            CurrencyISO::GIP => "GIP"@,
            CurrencyISO::GMD => "GMD"@,
            CurrencyISO::GNF => "GNF"@,
            CurrencyISO::GTQ => "GTQ"@,
            CurrencyISO::GYD => "GYD"@,
            CurrencyISO::HKD => "HKD"@,
            CurrencyISO::HNL => "HNL"@,
            CurrencyISO::HRK => "HRK"@,
            CurrencyISO::HTG => "HTG"@,
            CurrencyISO::HUF => "HUF"@,
            CurrencyISO::IDR => "IDR"@,
            CurrencyISO::ILS => "ILS"@,
            CurrencyISO::IMP => "IMP"@,
            CurrencyISO::INR => "INR"@,
            CurrencyISO::IQD => "IQD"@,
            CurrencyISO::IRR => "IRR"@,
            CurrencyISO::IRT => "IRT"@,
            CurrencyISO::ISK => "ISK"@,
            CurrencyISO::JEP => "JEP"@,
            CurrencyISO::JMD => "JMD"@,
            CurrencyISO::JOD => "JOD"@,
            CurrencyISO::JPY => "JPY"@,
            CurrencyISO::KES => "KES"@,
            CurrencyISO::KGS => "KGS"@,
            CurrencyISO::KHR => "KHR"@,
            CurrencyISO::KMF => "KMF"@,
            CurrencyISO::KPW => "KPW"@,
            CurrencyISO::KRW => "KRW"@,
            CurrencyISO::KWD => "KWD"@,
            CurrencyISO::KYD => "KYD"@,
            CurrencyISO::KZT => "KZT"@,
            CurrencyISO::LAK => "LAK"@,
            CurrencyISO::LBP => "LBP"@,
            CurrencyISO::LKR => "LKR"@,
            CurrencyISO::LRD => "LRD"@,
            CurrencyISO::LSL => "LSL"@,
            CurrencyISO::LYD => "LYD"@,
            CurrencyISO::MAD => "MAD"@,
            CurrencyISO::MDL => "MDL"@,
            CurrencyISO::MGA => "MGA"@,
            CurrencyISO::MKD => "MKD"@,
            CurrencyISO::MMK => "MMK"@,
            CurrencyISO::MNT => "MNT"@,
            CurrencyISO::MOP => "MOP"@,
            CurrencyISO::MRO => "MRO"@,
            CurrencyISO::MUR => "MUR"@,
            CurrencyISO::MVR => "MVR"@,
            CurrencyISO::MWK => "MWK"@,
            CurrencyISO::MXN => "MXN"@,
            CurrencyISO::MYR => "MYR"@,
            CurrencyISO::MZN => "MZN"@,
            CurrencyISO::NAD => "NAD"@,
            CurrencyISO::NGN => "NGN"@,
            CurrencyISO::NIO => "NIO"@,
            CurrencyISO::NOK => "NOK"@,
            CurrencyISO::NPR => "NPR"@,
            CurrencyISO::NZD => "NZD"@,
            CurrencyISO::OMR => "OMR"@,
            CurrencyISO::PAB => "PAB"@,
            CurrencyISO::PEN => "PEN"@,
            CurrencyISO::PGK => "PGK"@,
            CurrencyISO::PHP => "PHP"@,
            CurrencyISO::PKR => "PKR"@,
            CurrencyISO::PLN => "PLN"@,
            CurrencyISO::PRB => "PRB"@,
            CurrencyISO::PYG => "PYG"@,
            CurrencyISO::QAR => "QAR"@,
            CurrencyISO::RON => "RON"@,
            CurrencyISO::RSD => "RSD"@,
            CurrencyISO::RUB => "RUB"@,
            CurrencyISO::RWF => "RWF"@,
            CurrencyISO::SAR => "SAR"@,
            CurrencyISO::SBD => "SBD"@,
            CurrencyISO::SCR => "SCR"@,
            CurrencyISO::SDG => "SDG"@,
            CurrencyISO::SEK => "SEK"@,
            CurrencyISO::SGD => "SGD"@,
            CurrencyISO::SHP => "SHP"@,
            CurrencyISO::SLL => "SLL"@,
            CurrencyISO::SOS => "SOS"@,
            CurrencyISO::SRD => "SRD"@,
            CurrencyISO::SSP => "SSP"@,
            CurrencyISO::STD => "STD"@,
            CurrencyISO::SYP => "SYP"@,
            CurrencyISO::SZL => "SZL"@,
            CurrencyISO::THB => "THB"@,
            CurrencyISO::TJS => "TJS"@,
            CurrencyISO::TMT => "TMT"@,
            CurrencyISO::TND => "TND"@,
            CurrencyISO::TOP => "TOP"@,
            CurrencyISO::TRY => "TRY"@,
            CurrencyISO::TTD => "TTD"@,
            CurrencyISO::TWD => "TWD"@,
            CurrencyISO::TZS => "TZS"@,
            CurrencyISO::UAH => "UAH"@,
            CurrencyISO::UGX => "UGX"@,
            CurrencyISO::USD => "USD"@,
            CurrencyISO::UYU => "UYU"@,
            CurrencyISO::UZS => "UZS"@,
            CurrencyISO::VEF => "VEF"@,
            CurrencyISO::VND => "VND"@,
            CurrencyISO::VUV => "VUV"@,
            CurrencyISO::WST => "WST"@,
            CurrencyISO::XAF => "XAF"@,
            CurrencyISO::XCD => "XCD"@,
            CurrencyISO::XOF => "XOF"@,
            CurrencyISO::XPF => "XPF"@,
            CurrencyISO::YER => "YER"@,
            CurrencyISO::ZAR => "ZAR"@,
            CurrencyISO::ZMW => "ZMW"@,
        }
    }

    /// The three-letter code of this currency.
    pub fn as_str(&self) -> (res: &'static str)
        ensures
            res@ == self.code(),
    {
        match self {
            CurrencyISO::AED => "AED",
            CurrencyISO::AFN => "AFN",
            CurrencyISO::ALL => "ALL",
            CurrencyISO::AMD => "AMD",
            CurrencyISO::ANG => "ANG",
            CurrencyISO::AOA => "AOA",
            CurrencyISO::ARS => "ARS",
            CurrencyISO::AUD => "AUD",
            CurrencyISO::AWG => "AWG",
            CurrencyISO::AZN => "AZN",
            CurrencyISO::BAM => "BAM",
            CurrencyISO::BBD => "BBD",
            CurrencyISO::BDT => "BDT",
            CurrencyISO::BGN => "BGN",
            CurrencyISO::BHD => "BHD",
            CurrencyISO::BIF => "BIF",
            CurrencyISO::BMD => "BMD",
            CurrencyISO::BND => "BND",
            CurrencyISO::BOB => "BOB",
            CurrencyISO::BRL => "BRL",
            CurrencyISO::BSD => "BSD",
            CurrencyISO::BTC => "BTC",
            CurrencyISO::BTN => "BTN",
            CurrencyISO::BWP => "BWP",
            CurrencyISO::BYR => "BYR",
            CurrencyISO::BZD => "BZD",
            CurrencyISO::CAD => "CAD",
            CurrencyISO::CDF => "CDF",
            CurrencyISO::CHF => "CHF",
            CurrencyISO::CLP => "CLP",
            CurrencyISO::CNY => "CNY",
            CurrencyISO::COP => "COP",
            CurrencyISO::CRC => "CRC",
            CurrencyISO::CUC => "CUC",
            CurrencyISO::CUP => "CUP",
            CurrencyISO::CVE => "CVE",
            CurrencyISO::CZK => "CZK",
            CurrencyISO::DJF => "DJF",
            CurrencyISO::DKK => "DKK",
            CurrencyISO::DOP => "DOP",
            CurrencyISO::DZD => "DZD",
            CurrencyISO::EGP => "EGP",
            CurrencyISO::ERN => "ERN",
            CurrencyISO::ETB => "ETB",
            CurrencyISO::EUR => "EUR",
            CurrencyISO::FJD => "FJD",
            CurrencyISO::FKP => "FKP",
            CurrencyISO::GBP => "GBP",
            CurrencyISO::GEL => "GEL",
            CurrencyISO::GGP => "GGP",
            CurrencyISO::GHS => "GHS",
            CurrencyISO::GIP => "GIP",
            CurrencyISO::GMD => "GMD",
            CurrencyISO::GNF => "GNF",
            CurrencyISO::GTQ => "GTQ",
            CurrencyISO::GYD => "GYD",
            CurrencyISO::HKD => "HKD",
            CurrencyISO::HNL => "HNL",
            CurrencyISO::HRK => "HRK",
            CurrencyISO::HTG => "HTG",
            CurrencyISO::HUF => "HUF",
            CurrencyISO::IDR => "IDR",
            CurrencyISO::ILS => "ILS",
            CurrencyISO::IMP => "IMP",
            CurrencyISO::INR => "INR",
            CurrencyISO::IQD => "IQD",
            CurrencyISO::IRR => "IRR",
            CurrencyISO::IRT => "IRT",
            CurrencyISO::ISK => "ISK",
            CurrencyISO::JEP => "JEP",
            CurrencyISO::JMD => "JMD",
            CurrencyISO::JOD => "JOD",
            CurrencyISO::JPY => "JPY",
            CurrencyISO::KES => "KES",
            CurrencyISO::KGS => "KGS",
            CurrencyISO::KHR => "KHR",
            CurrencyISO::KMF => "KMF",
            CurrencyISO::KPW => "KPW",
            CurrencyISO::KRW => "KRW",
            CurrencyISO::KWD => "KWD",
            CurrencyISO::KYD => "KYD",
            CurrencyISO::KZT => "KZT",
            CurrencyISO::LAK => "LAK",
            CurrencyISO::LBP => "LBP",
            CurrencyISO::LKR => "LKR",
            CurrencyISO::LRD => "LRD",
            CurrencyISO::LSL => "LSL",
            CurrencyISO::LYD => "LYD",
            CurrencyISO::MAD => "MAD",
            CurrencyISO::MDL => "MDL",
            CurrencyISO::MGA => "MGA",
            CurrencyISO::MKD => "MKD",
            CurrencyISO::MMK => "MMK",
            CurrencyISO::MNT => "MNT",
            CurrencyISO::MOP => "MOP",
            CurrencyISO::MRO => "MRO",
            CurrencyISO::MUR => "MUR",
            CurrencyISO::MVR => "MVR",
            CurrencyISO::MWK => "MWK",
            CurrencyISO::MXN => "MXN",
            CurrencyISO::MYR => "MYR",
            CurrencyISO::MZN => "MZN",
            CurrencyISO::NAD => "NAD",
            CurrencyISO::NGN => "NGN",
            CurrencyISO::NIO => "NIO",
            CurrencyISO::NOK => "NOK",
            CurrencyISO::NPR => "NPR",
            CurrencyISO::NZD => "NZD",
            CurrencyISO::OMR => "OMR",
            CurrencyISO::PAB => "PAB",
            CurrencyISO::PEN => "PEN",
            CurrencyISO::PGK => "PGK",
            CurrencyISO::PHP => "PHP",
            CurrencyISO::PKR => "PKR",
            CurrencyISO::PLN => "PLN",
            CurrencyISO::PRB => "PRB",
            CurrencyISO::PYG => "PYG",
            CurrencyISO::QAR => "QAR",
            CurrencyISO::RON => "RON",
            CurrencyISO::RSD => "RSD",
            CurrencyISO::RUB => "RUB",
            CurrencyISO::RWF => "RWF",
            CurrencyISO::SAR => "SAR",
            CurrencyISO::SBD => "SBD",
            CurrencyISO::SCR => "SCR",
            CurrencyISO::SDG => "SDG",
            CurrencyISO::SEK => "SEK",
            CurrencyISO::SGD => "SGD",
            CurrencyISO::SHP => "SHP",
            CurrencyISO::SLL => "SLL",
            CurrencyISO::SOS => "SOS",
            CurrencyISO::SRD => "SRD",
            CurrencyISO::SSP => "SSP",
            CurrencyISO::STD => "STD",
            CurrencyISO::SYP => "SYP",
            CurrencyISO::SZL => "SZL",
            CurrencyISO::THB => "THB",
            CurrencyISO::TJS => "TJS",
            CurrencyISO::TMT => "TMT",
            CurrencyISO::TND => "TND",
            CurrencyISO::TOP => "TOP",
            CurrencyISO::TRY => "TRY",
            CurrencyISO::TTD => "TTD",
            CurrencyISO::TWD => "TWD",
            CurrencyISO::TZS => "TZS",
            CurrencyISO::UAH => "UAH",
            CurrencyISO::UGX => "UGX",
            CurrencyISO::USD => "USD",
            CurrencyISO::UYU => "UYU",
            CurrencyISO::UZS => "UZS",
            CurrencyISO::VEF => "VEF",
            CurrencyISO::VND => "VND",
            CurrencyISO::VUV => "VUV",
            CurrencyISO::WST => "WST",
            CurrencyISO::XAF => "XAF",
            CurrencyISO::XCD => "XCD",
            CurrencyISO::XOF => "XOF",
            CurrencyISO::XPF => "XPF",
            CurrencyISO::YER => "YER",
            CurrencyISO::ZAR => "ZAR",
            CurrencyISO::ZMW => "ZMW",
        }
    }
}

impl Default for CurrencyISO {
    /// An order that was given no currency is in US dollars.
    fn default() -> (res: Self)
        ensures
            res == CurrencyISO::USD,
    {
        CurrencyISO::USD
    }
}

} // verus!
