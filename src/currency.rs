//! Reference data on currencies: display symbols, where the symbol stands,
//! and how many fraction digits an amount is shown with.

use vstd::prelude::*;
use crate::text::same_text;

verus! {

/// The display symbol of a currency code; empty for a code the table does not know.
pub open spec fn symbol_of(code: Seq<char>) -> Seq<char> {
    if code == "DZD"@ {
        "دج"@  // Algerian Dinar
    } else if code == "AOA"@ {
        "Kz"@  // Angolan Kwanza
    } else if code == "XOF"@ {
        "Fr"@  // CFA Franc BCEAO
    } else if code == "BWP"@ {
        "P"@  // Botswana Pula
    } else if code == "XAF"@ {
        "Fr"@  // CFA Franc BEAC
    } else if code == "CDF"@ {
        "FC"@  // Congolese Franc
    } else if code == "EGP"@ {
        "£"@  // Egyptian Pound
    } else if code == "GHS"@ {
        "₵"@  // Ghanaian Cedi
    } else if code == "INR"@ {
        "₹"@  // Indian Rupee
    } else if code == "ILS"@ {
        "₪"@  // Israeli New Shekel
    } else if code == "JOD"@ {
        "JD"@  // Jordanian Dinar
    } else if code == "KES"@ {
        "KSh"@  // Kenyan Shilling
    } else if code == "KWD"@ {
        "KD"@  // Kuwaiti Dinar
    } else if code == "LRD"@ {
        "$"@  // Liberian Dollar
    } else if code == "LYD"@ {
        "LD"@  // Libyan Dinar
    } else if code == "MGA"@ {
        "Ar"@  // Malagasy Ariary
    } else if code == "MWK"@ {
        "MK"@  // Malawian Kwacha
    } else if code == "MRU"@ {
        "UM"@  // Mauritanian Ouguiya
    } else if code == "MUR"@ {
        "₨"@  // Mauritian Rupee
    } else if code == "MAD"@ {
        "د.م."@  // Moroccan Dirham
    } else if code == "MZN"@ {
        "MTn"@  // Mozambican Metical
    } else if code == "NAD"@ {
        "$"@  // Namibian Dollar
    } else if code == "NGN"@ {
        "₦"@  // Nigerian Naira
    } else if code == "OMR"@ {
        "ر.ع."@  // Omani Rial
    } else if code == "PKR"@ {
        "₨"@  // Pakistani Rupee
    } else if code == "QAR"@ {
        "ر.ق"@  // Qatari Riyal
    } else if code == "RWF"@ {
        "FRw"@  // Rwandan Franc
    } else if code == "SAR"@ {
        "ر.س"@  // Saudi Riyal
    } else if code == "SCR"@ {
        "SR"@  // Seychellois Rupee
    } else if code == "SLL"@ {
        "Le"@  // Sierra Leonean Leone
    } else if code == "ZAR"@ {
        "R"@  // South African Rand
    } else if code == "TZS"@ {
        "TZS"@  // Tanzanian Shilling
    } else if code == "TND"@ {
        "د.ت"@  // Tunisian Dinar
    } else if code == "UGX"@ {
        "USh"@  // Ugandan Shilling
    } else if code == "AED"@ {
        "د.إ"@  // UAE Dirham
    } else if code == "ZMW"@ {
        "ZK"@  // Zambian Kwacha
    } else if code == "ZWL"@ {
        "Z$"@  // Zimbabwean Dollar
    } else if code == "AUD"@ {
        "$"@  // Australian Dollar
    } else if code == "BDT"@ {
        "৳"@  // Bangladeshi Taka
    } else if code == "BTN"@ {
        "Nu."@  // Bhutanese Ngultrum
    } else if code == "BND"@ {
        "B$"@  // Brunei Dollar
    } else if code == "KHR"@ {
        "៛"@  // Cambodian Riel (suffix)
    } else if code == "CNY"@ {
        "¥"@  // Chinese Yuan
    } else if code == "FJD"@ {
        "FJ$"@  // Fiji Dollar
    } else if code == "HKD"@ {
        "HK$"@  // Hong Kong Dollar
    } else if code == "IDR"@ {
        "Rp"@  // Indonesian Rupiah
    } else if code == "JPY"@ {
        "¥"@  // Japanese Yen
    } else if code == "KZT"@ {
        "₸"@  // Kazakhstani Tenge
    } else if code == "KGS"@ {
        "лв"@  // Kyrgyzstani Som
    } else if code == "MOP"@ {
        "P"@  // Macanese Pataca
    } else if code == "MYR"@ {
        "RM"@  // Malaysian Ringgit
    } else if code == "MVR"@ {
        "Rf."@  // Maldivian Rufiyaa
    } else if code == "MNT"@ {
        "₮"@  // Mongolian Tögrög
    } else if code == "MMK"@ {
        "K"@  // Myanmar Kyat (suffix)
    } else if code == "NPR"@ {
        "₨"@  // Nepalese Rupee
    } else if code == "NZD"@ {
        "NZ$"@  // New Zealand Dollar
    } else if code == "PHP"@ {
        "₱"@  // Philippine Peso
    } else if code == "SGD"@ {
        "S$"@  // Singapore Dollar
    } else if code == "KRW"@ {
        "₩"@  // South Korean Won
    } else if code == "LKR"@ {
        "Rs"@  // Sri Lankan Rupee
    } else if code == "TWD"@ {
        "NT$"@  // Taiwan Dollar
    } else if code == "TJS"@ {
        "TJS"@  // Tajikistani Somoni
    } else if code == "THB"@ {
        "฿"@  // Thai Baht
    } else if code == "TMT"@ {
        "m"@  // Turkmenistani Manat
    } else if code == "UZS"@ {
        "so'm"@  // Uzbekistani so'm
    } else if code == "VND"@ {
        "₫"@  // Vietnamese Dong (suffix)
    } else if code == "ALL"@ {
        "L"@  // Albanian Lek (suffix)
    } else if code == "AMD"@ {
        "AMD"@  // Armenian Dram
    } else if code == "EUR"@ {
        "€"@  // Euro
    } else if code == "AZN"@ {
        "₼"@  // Azerbaijani Manat
    } else if code == "BYN"@ {
        "Br"@  // Belarusian Ruble (suffix)
    } else if code == "BAM"@ {
        "KM"@  // Bosnia Convertible Mark
    } else if code == "BGN"@ {
        "лв"@  // Bulgarian Lev
    } else if code == "HRK"@ {
        "kn"@  // Croatian Kuna
    } else if code == "CZK"@ {
        "Kč"@  // Czech Koruna
    } else if code == "DKK"@ {
        "kr"@  // Danish Krone
    } else if code == "GEL"@ {
        "₾"@  // Georgian Lari
    } else if code == "HUF"@ {
        "HUF"@  // Hungarian Forint (suffix; ISO)
    } else if code == "ISK"@ {
        "kr"@  // Icelandic Króna
    } else if code == "MDL"@ {
        "L"@  // Moldovan Leu (suffix)
    } else if code == "MKD"@ {
        "ден"@  // North Macedonian Denar (suffix)
    } else if code == "NOK"@ {
        "kr"@  // Norwegian Krone
    } else if code == "PLN"@ {
        "zł"@  // Polish Zloty
    } else if code == "RON"@ {
        "lei"@  // Romanian leu (suffix, decimals)
    } else if code == "RUB"@ {
        "₽"@  // Russian Ruble
    } else if code == "SEK"@ {
        "kr"@  // Swedish Krona
    } else if code == "CHF"@ {
        "Fr."@  // Swiss Franc
    } else if code == "TRY"@ {
        "₺"@  // Turkish Lira
    } else if code == "UAH"@ {
        "₴"@  // Ukrainian Hryvnia
    } else if code == "GBP"@ {
        "£"@  // British Pound
    } else if code == "XCD"@ {
        "EC$"@  // Eastern Caribbean Dollar
    } else if code == "ARS"@ {
        "$"@  // Argentine Peso
    } else if code == "BSD"@ {
        "B$"@  // Bahamian Dollar
    } else if code == "BBD"@ {
        "Bds$"@  // Barbadian Dollar
    } else if code == "BZD"@ {
        "BZ$"@  // Belize Dollar
    } else if code == "BOB"@ {
        "Bs."@  // Bolivian Boliviano
    } else if code == "BRL"@ {
        "R$"@  // Brazilian Real
    } else if code == "KYD"@ {
        "CI$"@  // Cayman Islands Dollar
    } else if code == "CLP"@ {
        "$"@  // Chilean Peso
    } else if code == "COP"@ {
        "$"@  // Colombian Peso
    } else if code == "CRC"@ {
        "₡"@  // Costa Rican Colón
    } else if code == "DOP"@ {
        "RD$"@  // Dominican Peso
    } else if code == "GTQ"@ {
        "Q"@  // Guatemalan Quetzal
    } else if code == "GYD"@ {
        "G$"@  // Guyanese Dollar
    } else if code == "HNL"@ {
        "L"@  // Honduran Lempira
    } else if code == "JMD"@ {
        "J$"@  // Jamaican Dollar
    } else if code == "MXN"@ {
        "$"@  // Mexican Peso
    } else if code == "NIO"@ {
        "C$"@  // Nicaraguan Córdoba
    } else if code == "PAB"@ {
        "B/."@  // Panamanian Balboa
    } else if code == "PYG"@ {
        "₲"@  // Paraguayan guaraní
    } else if code == "PEN"@ {
        "S/."@  // Peruvian Sol
    } else if code == "SRD"@ {
        "$"@  // Surinamese dollar
    } else if code == "TTD"@ {
        "TT$"@  // Trinidad and Tobago Dollar
    } else if code == "UYU"@ {
        "$"@  // Uruguayan peso
    } else if code == "VES"@ {
        "Bs.S"@  // Venezuelan Bolívar Soberano
    } else if code == "CAD"@ {
        "$"@  // Canadian Dollar
    } else if code == "USD"@ {
        "$"@  // US Dollar
    } else if code == "PGK"@ {
        "K"@  // Papua New Guinea Kina
    } else if code == "SBD"@ {
        "SI$"@  // Solomon Islands dollar
    } else if code == "TOP"@ {
        "T$"@  // Tongan paʻanga (suffix)
    } else if code == "VUV"@ {
        "VT"@  // Vanuatu vatu (suffix)
    } else {
        Seq::empty()
    }
}

/// Whether the symbol (or the code) of a currency is written after the amount.
pub open spec fn is_suffix_code(code: Seq<char>) -> bool {
        code == "DZD"@
        || code == "AOA"@
        || code == "BWP"@
        || code == "GHS"@
        || code == "KES"@
        || code == "LSL"@
        || code == "LYD"@
        || code == "MGA"@
        || code == "MWK"@
        || code == "MUR"@
        || code == "MZN"@
        || code == "NAD"@
        || code == "NGN"@
        || code == "RWF"@
        || code == "SCR"@
        || code == "SLL"@
        || code == "SZL"@
        || code == "TZS"@
        || code == "UGX"@
        || code == "XAF"@
        || code == "XOF"@
        || code == "ZAR"@
        || code == "ZMW"@
        || code == "ZWL"@
        || code == "KMF"@
        || code == "CFA"@
        || code == "CDF"@
        || code == "KHR"@
        || code == "MMK"@
        || code == "VND"@
        || code == "VUV"@
        || code == "TOP"@
        || code == "ALL"@
        || code == "MKD"@
        || code == "MDL"@
        || code == "RON"@
        || code == "RSD"@
        || code == "UAH"@
        || code == "HUF"@
        || code == "BYN"@
}

/// Currencies customarily quoted without subdivision.
pub open spec fn is_whole_unit_code(code: Seq<char>) -> bool {
        code == "JPY"@
        || code == "KRW"@
        || code == "VND"@
        || code == "IDR"@
        || code == "MMK"@
        || code == "LAK"@
        || code == "KHR"@
        || code == "UGX"@
        || code == "TZS"@
        || code == "MWK"@
        || code == "MGA"@
        || code == "CDF"@
        || code == "RWF"@
        || code == "GNF"@
        || code == "XOF"@
        || code == "XAF"@
        || code == "KMF"@
        || code == "MZN"@
        || code == "BIF"@
        || code == "VUV"@
        || code == "SLL"@
        || code == "BYN"@
}

/// Currencies quoted to thousandths.
pub open spec fn is_thousandths_code(code: Seq<char>) -> bool {
        code == "KWD"@
        || code == "BHD"@
        || code == "IQD"@
        || code == "OMR"@
        || code == "TND"@
        || code == "LYD"@
        || code == "JOD"@
}

/// The number of fraction digits an amount in this currency is shown with.
pub open spec fn places_of(code: Seq<char>) -> nat {
    if is_whole_unit_code(code) {
        0
    } else if is_thousandths_code(code) {
        3
    } else {
        2
    }
}

/// The display symbol of `code`, or the empty string when the code is unknown.
pub fn currency_symbol(code: &str) -> (r: &'static str)
    ensures
        r@ == symbol_of(code@),
{
    let c = code.to_owned();
    if same_text(&c, "DZD") {
        "دج"
    } else if same_text(&c, "AOA") {
        "Kz"
    } else if same_text(&c, "XOF") {
        "Fr"
    } else if same_text(&c, "BWP") {
        "P"
    } else if same_text(&c, "XAF") {
        "Fr"
    } else if same_text(&c, "CDF") {
        "FC"
    } else if same_text(&c, "EGP") {
        "£"
    } else if same_text(&c, "GHS") {
        "₵"
    } else if same_text(&c, "INR") {
        "₹"
    } else if same_text(&c, "ILS") {
        "₪"
    } else if same_text(&c, "JOD") {
        "JD"
    } else if same_text(&c, "KES") {
        "KSh"
    } else if same_text(&c, "KWD") {
        "KD"
    } else if same_text(&c, "LRD") {
        "$"
    } else if same_text(&c, "LYD") {
        "LD"
    } else if same_text(&c, "MGA") {
        "Ar"
    } else if same_text(&c, "MWK") {
        "MK"
    } else if same_text(&c, "MRU") {
        "UM"
    } else if same_text(&c, "MUR") {
        "₨"
    } else if same_text(&c, "MAD") {
        "د.م."
    } else if same_text(&c, "MZN") {
        "MTn"
    } else if same_text(&c, "NAD") {
        "$"
    } else if same_text(&c, "NGN") {
        "₦"
    } else if same_text(&c, "OMR") {
        "ر.ع."
    } else if same_text(&c, "PKR") {
        "₨"
    } else if same_text(&c, "QAR") {
        "ر.ق"
    } else if same_text(&c, "RWF") {
        "FRw"
    } else if same_text(&c, "SAR") {
        "ر.س"
    } else if same_text(&c, "SCR") {
        "SR"
    } else if same_text(&c, "SLL") {
        "Le"
    } else if same_text(&c, "ZAR") {
        "R"
    } else if same_text(&c, "TZS") {
        "TZS"
    } else if same_text(&c, "TND") {
        "د.ت"
    } else if same_text(&c, "UGX") {
        "USh"
    } else if same_text(&c, "AED") {
        "د.إ"
    } else if same_text(&c, "ZMW") {
        "ZK"
    } else if same_text(&c, "ZWL") {
        "Z$"
    } else if same_text(&c, "AUD") {
        "$"
    } else if same_text(&c, "BDT") {
        "৳"
    } else if same_text(&c, "BTN") {
        "Nu."
    } else if same_text(&c, "BND") {
        "B$"
    } else if same_text(&c, "KHR") {
        "៛"
    } else if same_text(&c, "CNY") {
        "¥"
    } else if same_text(&c, "FJD") {
        "FJ$"
    } else if same_text(&c, "HKD") {
        "HK$"
    } else if same_text(&c, "IDR") {
        "Rp"
    } else if same_text(&c, "JPY") {
        "¥"
    } else if same_text(&c, "KZT") {
        "₸"
    } else if same_text(&c, "KGS") {
        "лв"
    } else if same_text(&c, "MOP") {
        "P"
    } else if same_text(&c, "MYR") {
        "RM"
    } else if same_text(&c, "MVR") {
        "Rf."
    } else if same_text(&c, "MNT") {
        "₮"
    } else if same_text(&c, "MMK") {
        "K"
    } else if same_text(&c, "NPR") {
        "₨"
    } else if same_text(&c, "NZD") {
        "NZ$"
    } else if same_text(&c, "PHP") {
        "₱"
    } else if same_text(&c, "SGD") {
        "S$"
    } else if same_text(&c, "KRW") {
        "₩"
    } else if same_text(&c, "LKR") {
        "Rs"
    } else if same_text(&c, "TWD") {
        "NT$"
    } else if same_text(&c, "TJS") {
        "TJS"
    } else if same_text(&c, "THB") {
        "฿"
    } else if same_text(&c, "TMT") {
        "m"
    } else if same_text(&c, "UZS") {
        "so'm"
    } else if same_text(&c, "VND") {
        "₫"
    } else if same_text(&c, "ALL") {
        "L"
    } else if same_text(&c, "AMD") {
        "AMD"
    } else if same_text(&c, "EUR") {
        "€"
    } else if same_text(&c, "AZN") {
        "₼"
    } else if same_text(&c, "BYN") {
        "Br"
    } else if same_text(&c, "BAM") {
        "KM"
    } else if same_text(&c, "BGN") {
        "лв"
    } else if same_text(&c, "HRK") {
        "kn"
    } else if same_text(&c, "CZK") {
        "Kč"
    } else if same_text(&c, "DKK") {
        "kr"
    } else if same_text(&c, "GEL") {
        "₾"
    } else if same_text(&c, "HUF") {
        "HUF"
    } else if same_text(&c, "ISK") {
        "kr"
    } else if same_text(&c, "MDL") {
        "L"
    } else if same_text(&c, "MKD") {
        "ден"
    } else if same_text(&c, "NOK") {
        "kr"
    } else if same_text(&c, "PLN") {
        "zł"
    } else if same_text(&c, "RON") {
        "lei"
    } else if same_text(&c, "RUB") {
        "₽"
    } else if same_text(&c, "SEK") {
        "kr"
    } else if same_text(&c, "CHF") {
        "Fr."
    } else if same_text(&c, "TRY") {
        "₺"
    } else if same_text(&c, "UAH") {
        "₴"
    } else if same_text(&c, "GBP") {
        "£"
    } else if same_text(&c, "XCD") {
        "EC$"
    } else if same_text(&c, "ARS") {
        "$"
    } else if same_text(&c, "BSD") {
        "B$"
    } else if same_text(&c, "BBD") {
        "Bds$"
    } else if same_text(&c, "BZD") {
        "BZ$"
    } else if same_text(&c, "BOB") {
        "Bs."
    } else if same_text(&c, "BRL") {
        "R$"
    } else if same_text(&c, "KYD") {
        "CI$"
    } else if same_text(&c, "CLP") {
        "$"
    } else if same_text(&c, "COP") {
        "$"
    } else if same_text(&c, "CRC") {
        "₡"
    } else if same_text(&c, "DOP") {
        "RD$"
    } else if same_text(&c, "GTQ") {
        "Q"
    } else if same_text(&c, "GYD") {
        "G$"
    } else if same_text(&c, "HNL") {
        "L"
    } else if same_text(&c, "JMD") {
        "J$"
    } else if same_text(&c, "MXN") {
        "$"
    } else if same_text(&c, "NIO") {
        "C$"
    } else if same_text(&c, "PAB") {
        "B/."
    } else if same_text(&c, "PYG") {
        "₲"
    } else if same_text(&c, "PEN") {
        "S/."
    } else if same_text(&c, "SRD") {
        "$"
    } else if same_text(&c, "TTD") {
        "TT$"
    } else if same_text(&c, "UYU") {
        "$"
    } else if same_text(&c, "VES") {
        "Bs.S"
    } else if same_text(&c, "CAD") {
        "$"
    } else if same_text(&c, "USD") {
        "$"
    } else if same_text(&c, "PGK") {
        "K"
    } else if same_text(&c, "SBD") {
        "SI$"
    } else if same_text(&c, "TOP") {
        "T$"
    } else if same_text(&c, "VUV") {
        "VT"
    } else {
        proof {
            reveal_strlit("");
        }
        ""
    }
}

/// Whether the symbol (or the code) of `code` is written after the amount.
pub fn currency_is_suffix(code: &str) -> (r: bool)
    ensures
        r == is_suffix_code(code@),
{
    let c = code.to_owned();
    same_text(&c, "DZD")
        || same_text(&c, "AOA")
        || same_text(&c, "BWP")
        || same_text(&c, "GHS")
        || same_text(&c, "KES")
        || same_text(&c, "LSL")
        || same_text(&c, "LYD")
        || same_text(&c, "MGA")
        || same_text(&c, "MWK")
        || same_text(&c, "MUR")
        || same_text(&c, "MZN")
        || same_text(&c, "NAD")
        || same_text(&c, "NGN")
        || same_text(&c, "RWF")
        || same_text(&c, "SCR")
        || same_text(&c, "SLL")
        || same_text(&c, "SZL")
        || same_text(&c, "TZS")
        || same_text(&c, "UGX")
        || same_text(&c, "XAF")
        || same_text(&c, "XOF")
        || same_text(&c, "ZAR")
        || same_text(&c, "ZMW")
        || same_text(&c, "ZWL")
        || same_text(&c, "KMF")
        || same_text(&c, "CFA")
        || same_text(&c, "CDF")
        || same_text(&c, "KHR")
        || same_text(&c, "MMK")
        || same_text(&c, "VND")
        || same_text(&c, "VUV")
        || same_text(&c, "TOP")
        || same_text(&c, "ALL")
        || same_text(&c, "MKD")
        || same_text(&c, "MDL")
        || same_text(&c, "RON")
        || same_text(&c, "RSD")
        || same_text(&c, "UAH")
        || same_text(&c, "HUF")
        || same_text(&c, "BYN")
}

/// The number of fraction digits (0, 2 or 3) an amount in `code` is shown with.
pub fn decimal_places(code: &str) -> (r: u32)
    ensures
        r as nat == places_of(code@),
{
    let c = code.to_owned();
    let whole = same_text(&c, "JPY")
        || same_text(&c, "KRW")
        || same_text(&c, "VND")
        || same_text(&c, "IDR")
        || same_text(&c, "MMK")
        || same_text(&c, "LAK")
        || same_text(&c, "KHR")
        || same_text(&c, "UGX")
        || same_text(&c, "TZS")
        || same_text(&c, "MWK")
        || same_text(&c, "MGA")
        || same_text(&c, "CDF")
        || same_text(&c, "RWF")
        || same_text(&c, "GNF")
        || same_text(&c, "XOF")
        || same_text(&c, "XAF")
        || same_text(&c, "KMF")
        || same_text(&c, "MZN")
        || same_text(&c, "BIF")
        || same_text(&c, "VUV")
        || same_text(&c, "SLL")
        || same_text(&c, "BYN");
    let thousandths = same_text(&c, "KWD")
        || same_text(&c, "BHD")
        || same_text(&c, "IQD")
        || same_text(&c, "OMR")
        || same_text(&c, "TND")
        || same_text(&c, "LYD")
        || same_text(&c, "JOD");
    if whole {
        0
    } else if thousandths {
        3
    } else {
        2
    }
}

} // verus!
