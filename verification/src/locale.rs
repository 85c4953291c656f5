//! Display names for ISO 639-1 language codes and ISO 3166-1 country codes.
//!
//! Both tables are finite. A code that a table does not list is shown as it
//! was given, so the lookups are defined for every string.

use crate::text::text_eq;
use vstd::prelude::*;

verus! {

/// The language that the table lists for `code`, if it lists one.
pub open spec fn language_entry(code: Seq<char>) -> Option<Seq<char>> {
    if code == "en"@ {
        Some("English"@)
    } else if code == "fr"@ {
        Some("French"@)
    } else if code == "it"@ {
        Some("Italian"@)
    } else if code == "ja"@ {
        Some("Japanese"@)
    } else if code == "ko"@ {
        Some("Korean"@)
    } else if code == "cn"@ {
        Some("Cantonese"@)
    } else {
        None
    }
}

/// The name shown for a language code: the table's entry, or the code itself.
pub open spec fn language_name(code: Seq<char>) -> Seq<char> {
    match language_entry(code) {
        Some(name) => name,
        None => code,
    }
}

/// The country that the table lists for `code`, if it lists one.
pub open spec fn country_entry(code: Seq<char>) -> Option<Seq<char>> {
    if code == "AF"@ {
        Some("Afghanistan"@)
    } else if code == "AX"@ {
        Some("Åland Islands"@)
    } else if code == "AL"@ {
        Some("Albania"@)
    } else if code == "DZ"@ {
        Some("Algeria"@)
    } else if code == "AS"@ {
        Some("American Samoa"@)
    } else if code == "AD"@ {
        Some("Andorra"@)
    } else if code == "AO"@ {
        Some("Angola"@)
    } else if code == "AI"@ {
        Some("Anguilla"@)
    } else if code == "AQ"@ {
        Some("Antarctica"@)
    } else if code == "AG"@ {
        Some("Antigua and Barbuda"@)
    } else if code == "AR"@ {
        Some("Argentina"@)
    } else if code == "AM"@ {
        Some("Armenia"@)
    } else if code == "AW"@ {
        Some("Aruba"@)
    } else if code == "AU"@ {
        Some("Australia"@)
    } else if code == "AT"@ {
        Some("Austria"@)
    } else if code == "AZ"@ {
        Some("Azerbaijan"@)
    } else if code == "BS"@ {
        Some("Bahamas"@)
    } else if code == "BH"@ {
        Some("Bahrain"@)
    } else if code == "BD"@ {
        Some("Bangladesh"@)
    } else if code == "BB"@ {
        Some("Barbados"@)
    } else if code == "BY"@ {
        Some("Belarus"@)
    } else if code == "BE"@ {
        Some("Belgium"@)
    } else if code == "BZ"@ {
        Some("Belize"@)
    } else if code == "BJ"@ {
        Some("Benin"@)
    } else if code == "BM"@ {
        Some("Bermuda"@)
    } else if code == "BT"@ {
        Some("Bhutan"@)
    } else if code == "BO"@ {
        Some("Bolivia"@)
    } else if code == "BA"@ {
        Some("Bosnia and Herzegovina"@)
    } else if code == "BW"@ {
        Some("Botswana"@)
    } else if code == "BV"@ {
        Some("Bouvet Island"@)
    } else if code == "BR"@ {
        Some("Brazil"@)
    } else if code == "VG"@ {
        Some("British Virgin Islands"@)
    } else if code == "IO"@ {
        Some("British Indian Ocean Territory"@)
    } else if code == "BN"@ {
        Some("Brunei Darussalam"@)
    } else if code == "BG"@ {
        Some("Bulgaria"@)
    } else if code == "BF"@ {
        Some("Burkina Faso"@)
    } else if code == "BI"@ {
        Some("Burundi"@)
    } else if code == "KH"@ {
        Some("Cambodia"@)
    } else if code == "CM"@ {
        Some("Cameroon"@)
    } else if code == "CA"@ {
        Some("Canada"@)
    } else if code == "CV"@ {
        Some("Cape Verde"@)
    } else if code == "KY"@ {
        Some("Cayman Islands"@)
    } else if code == "CF"@ {
        Some("Central African Republic"@)
    } else if code == "TD"@ {
        Some("Chad"@)
    } else if code == "CL"@ {
        Some("Chile"@)
    } else if code == "CN"@ {
        Some("China"@)
    } else if code == "HK"@ {
        Some("Hong Kong, SAR China"@)
    } else if code == "MO"@ {
        Some("Macao, SAR China"@)
    } else if code == "CX"@ {
        Some("Christmas Island"@)
    } else if code == "CC"@ {
        Some("Cocos (Keeling) Islands"@)
    } else if code == "CO"@ {
        Some("Colombia"@)
    } else if code == "KM"@ {
        Some("Comoros"@)
    } else if code == "CG"@ {
        Some("Congo (Brazzaville)"@)
    } else if code == "CD"@ {
        Some("Congo, (Kinshasa)"@)
    } else if code == "CK"@ {
        Some("Cook Islands"@)
    } else if code == "CR"@ {
        Some("Costa Rica"@)
    } else if code == "CI"@ {
        Some("Côte d'Ivoire"@)
    } else if code == "HR"@ {
        Some("Croatia"@)
    } else if code == "CU"@ {
        Some("Cuba"@)
    } else if code == "CY"@ {
        Some("Cyprus"@)
    } else if code == "CZ"@ {
        Some("Czech Republic"@)
    } else if code == "DK"@ {
        Some("Denmark"@)
    } else if code == "DJ"@ {
        Some("Djibouti"@)
    } else if code == "DM"@ {
        Some("Dominica"@)
    } else if code == "DO"@ {
        Some("Dominican Republic"@)
    } else if code == "EC"@ {
        Some("Ecuador"@)
    } else if code == "EG"@ {
        Some("Egypt"@)
    } else if code == "SV"@ {
        Some("El Salvador"@)
    } else if code == "GQ"@ {
        Some("Equatorial Guinea"@)
    } else if code == "ER"@ {
        Some("Eritrea"@)
    } else if code == "EE"@ {
        Some("Estonia"@)
    } else if code == "ET"@ {
        Some("Ethiopia"@)
    } else if code == "FK"@ {
        Some("Falkland Islands (Malvinas)"@)
    } else if code == "FO"@ {
        Some("Faroe Islands"@)
    } else if code == "FJ"@ {
        Some("Fiji"@)
    } else if code == "FI"@ {
        Some("Finland"@)
    } else if code == "FR"@ {
        Some("France"@)
    } else if code == "GF"@ {
        Some("French Guiana"@)
    } else if code == "PF"@ {
        Some("French Polynesia"@)
    } else if code == "TF"@ {
        Some("French Southern Territories"@)
    } else if code == "GA"@ {
        Some("Gabon"@)
    } else if code == "GM"@ {
        Some("Gambia"@)
    } else if code == "GE"@ {
        Some("Georgia"@)
    } else if code == "DE"@ {
        Some("Germany"@)
    } else if code == "GH"@ {
        Some("Ghana"@)
    } else if code == "GI"@ {
        Some("Gibraltar"@)
    } else if code == "GR"@ {
        Some("Greece"@)
    } else if code == "GL"@ {
        Some("Greenland"@)
    } else if code == "GD"@ {
        Some("Grenada"@)
    } else if code == "GP"@ {
        Some("Guadeloupe"@)
    } else if code == "GU"@ {
        Some("Guam"@)
    } else if code == "GT"@ {
        Some("Guatemala"@)
    } else if code == "GG"@ {
        Some("Guernsey"@)
    } else if code == "GN"@ {
        Some("Guinea"@)
    } else if code == "GW"@ {
        Some("Guinea-Bissau"@)
    } else if code == "GY"@ {
        Some("Guyana"@)
    } else if code == "HT"@ {
        Some("Haiti"@)
    } else if code == "HM"@ {
        Some("Heard and McDonald Islands"@)
    } else if code == "VA"@ {
        Some("Holy See (Vatican City State)"@)
    } else if code == "HN"@ {
        Some("Honduras"@)
    } else if code == "HU"@ {
        Some("Hungary"@)
    } else if code == "IS"@ {
        Some("Iceland"@)
    } else if code == "IN"@ {
        Some("India"@)
    } else if code == "ID"@ {
        Some("Indonesia"@)
    } else if code == "IR"@ {
        Some("Islamic Republic of Iran"@)
    } else if code == "IQ"@ {
        Some("Iraq"@)
    } else if code == "IE"@ {
        Some("Ireland"@)
    } else if code == "IM"@ {
        Some("Isle of Man"@)
    } else if code == "IL"@ {
        Some("Israel"@)
    } else if code == "IT"@ {
        Some("Italy"@)
    } else if code == "JM"@ {
        Some("Jamaica"@)
    } else if code == "JP"@ {
        Some("Japan"@)
    } else if code == "JE"@ {
        Some("Jersey"@)
    } else if code == "JO"@ {
        Some("Jordan"@)
    } else if code == "KZ"@ {
        Some("Kazakhstan"@)
    } else if code == "KE"@ {
        Some("Kenya"@)
    } else if code == "KI"@ {
        Some("Kiribati"@)
    } else if code == "XK"@ {
        Some("Kosovo"@)
    } else if code == "KP"@ {
        Some("North Korea"@)
    } else if code == "KR"@ {
        Some("South Korea"@)
    } else if code == "KW"@ {
        Some("Kuwait"@)
    } else if code == "KG"@ {
        Some("Kyrgyzstan"@)
    } else if code == "LA"@ {
        Some("Lao PDR"@)
    } else if code == "LV"@ {
        Some("Latvia"@)
    } else if code == "LB"@ {
        Some("Lebanon"@)
    } else if code == "LS"@ {
        Some("Lesotho"@)
    } else if code == "LR"@ {
        Some("Liberia"@)
    } else if code == "LY"@ {
        Some("Libya"@)
    } else if code == "LI"@ {
        Some("Liechtenstein"@)
    } else if code == "LT"@ {
        Some("Lithuania"@)
    } else if code == "LU"@ {
        Some("Luxembourg"@)
    } else if code == "MK"@ {
        Some("Republic of Macedonia"@)
    } else if code == "MG"@ {
        Some("Madagascar"@)
    } else if code == "MW"@ {
        Some("Malawi"@)
    } else if code == "MY"@ {
        Some("Malaysia"@)
    } else if code == "MV"@ {
        Some("Maldives"@)
    } else if code == "ML"@ {
        Some("Mali"@)
    } else if code == "MT"@ {
        Some("Malta"@)
    } else if code == "MH"@ {
        Some("Marshall Islands"@)
    } else if code == "MQ"@ {
        Some("Martinique"@)
    } else if code == "MR"@ {
        Some("Mauritania"@)
    } else if code == "MU"@ {
        Some("Mauritius"@)
    } else if code == "YT"@ {
        Some("Mayotte"@)
    } else if code == "MX"@ {
        Some("Mexico"@)
    } else if code == "FM"@ {
        Some("Federated States of Micronesia"@)
    } else if code == "MD"@ {
        Some("Moldova"@)
    } else if code == "MC"@ {
        Some("Monaco"@)
    } else if code == "MN"@ {
        Some("Mongolia"@)
    } else if code == "ME"@ {
        Some("Montenegro"@)
    } else if code == "MS"@ {
        Some("Montserrat"@)
    } else if code == "MA"@ {
        Some("Morocco"@)
    } else if code == "MZ"@ {
        Some("Mozambique"@)
    } else if code == "MM"@ {
        Some("Myanmar"@)
    } else if code == "NA"@ {
        Some("Namibia"@)
    } else if code == "NR"@ {
        Some("Nauru"@)
    } else if code == "NP"@ {
        Some("Nepal"@)
    } else if code == "NL"@ {
        Some("Netherlands"@)
    } else if code == "AN"@ {
        Some("Netherlands Antilles"@)
    } else if code == "NC"@ {
        Some("New Caledonia"@)
    } else if code == "NZ"@ {
        Some("New Zealand"@)
    } else if code == "NI"@ {
        Some("Nicaragua"@)
    } else if code == "NE"@ {
        Some("Niger"@)
    } else if code == "NG"@ {
        Some("Nigeria"@)
    } else if code == "NU"@ {
        Some("Niue"@)
    } else if code == "NF"@ {
        Some("Norfolk Island"@)
    } else if code == "MP"@ {
        Some("Northern Mariana Islands"@)
    } else if code == "NO"@ {
        Some("Norway"@)
    } else if code == "OM"@ {
        Some("Oman"@)
    } else if code == "PK"@ {
        Some("Pakistan"@)
    } else if code == "PW"@ {
        Some("Palau"@)
    } else if code == "PS"@ {
        Some("Palestinian Territory"@)
    } else if code == "PA"@ {
        Some("Panama"@)
    } else if code == "PG"@ {
        Some("Papua New Guinea"@)
    } else if code == "PE"@ {
        Some("Peru"@)
    } else if code == "PH"@ {
        Some("Philippines"@)
    } else if code == "PN"@ {
        Some("Pitcairn"@)
    } else if code == "PL"@ {
        Some("Poland"@)
    } else if code == "PT"@ {
        Some("Portugal"@)
    } else if code == "PR"@ {
        Some("Puerto Rico"@)
    } else if code == "QA"@ {
        Some("Qatar"@)
    } else if code == "RE"@ {
        Some("Réunion"@)
    } else if code == "RO"@ {
        Some("Romania"@)
    } else if code == "RU"@ {
        Some("Russia (Russian Federation)"@)
    } else if code == "RW"@ {
        Some("Rwanda"@)
    } else if code == "BL"@ {
        Some("Saint-Barthélemy"@)
    } else if code == "SH"@ {
        Some("Saint Helena"@)
    } else if code == "KN"@ {
        Some("Saint Kitts and Nevis"@)
    } else if code == "LC"@ {
        Some("Saint Lucia"@)
    } else if code == "MF"@ {
        Some("Saint-Martin (French part)"@)
    } else if code == "PM"@ {
        Some("Saint Pierre and Miquelon"@)
    } else if code == "VC"@ {
        Some("Saint Vincent and Grenadines"@)
    } else if code == "WS"@ {
        Some("Samoa"@)
    } else if code == "SM"@ {
        Some("San Marino"@)
    } else if code == "ST"@ {
        Some("Sao Tome and Principe"@)
    } else if code == "SA"@ {
        Some("Saudi Arabia"@)
    } else if code == "SN"@ {
        Some("Senegal"@)
    } else if code == "RS"@ {
        Some("Serbia"@)
    } else if code == "SC"@ {
        Some("Seychelles"@)
    } else if code == "SL"@ {
        Some("Sierra Leone"@)
    } else if code == "SG"@ {
        Some("Singapore"@)
    } else if code == "SI"@ {
        Some("Slovenia"@)
    } else if code == "SB"@ {
        Some("Solomon Islands"@)
    } else if code == "SO"@ {
        Some("Somalia"@)
    } else if code == "ZA"@ {
        Some("South Africa"@)
    } else if code == "GS"@ {
        Some("South Georgia and the South Sandwich Islands"@)
    } else if code == "SS"@ {
        Some("South Sudan"@)
    } else if code == "ES"@ {
        Some("Spain"@)
    } else if code == "LK"@ {
        Some("Sri Lanka"@)
    } else if code == "SR"@ {
        Some("Suriname"@)
    } else if code == "SJ"@ {
        Some("Svalbard and Jan Mayen Islands"@)
    } else if code == "SZ"@ {
        Some("Swaziland"@)
    } else if code == "SE"@ {
        Some("Sweden"@)
    } else if code == "CH"@ {
        Some("Switzerland"@)
    } else if code == "SY"@ {
        Some("Syrian Arab Republic (Syria)"@)
    } else if code == "TW"@ {
        Some("Taiwan (Republic of China)"@)
    } else if code == "TJ"@ {
        Some("Tajikistan"@)
    } else if code == "TZ"@ {
        Some("United Republic of Tanzania"@)
    } else if code == "TH"@ {
        Some("Thailand"@)
    } else if code == "TL"@ {
        Some("Timor-Leste"@)
    } else if code == "TG"@ {
        Some("Togo"@)
    } else if code == "TK"@ {
        Some("Tokelau"@)
    } else if code == "TO"@ {
        Some("Tonga"@)
    } else if code == "TT"@ {
        Some("Trinidad and Tobago"@)
    } else if code == "TN"@ {
        Some("Tunisia"@)
    } else if code == "TR"@ {
        Some("Türkiye"@)
    } else if code == "TM"@ {
        Some("Turkmenistan"@)
    } else if code == "TC"@ {
        Some("Turks and Caicos Islands"@)
    } else if code == "TV"@ {
        Some("Tuvalu"@)
    } else if code == "UG"@ {
        Some("Uganda"@)
    } else if code == "UA"@ {
        Some("Ukraine"@)
    } else if code == "AE"@ {
        Some("United Arab Emirates"@)
    } else if code == "GB"@ {
        Some("United Kingdom"@)
    } else if code == "US"@ {
        Some("United States"@)
    } else if code == "UM"@ {
        Some("US Minor Outlying Islands"@)
    } else if code == "UY"@ {
        Some("Uruguay"@)
    } else if code == "UZ"@ {
        Some("Uzbekistan"@)
    } else if code == "VU"@ {
        Some("Vanuatu"@)
    } else if code == "VE"@ {
        Some("Venezuela"@)
    } else if code == "VN"@ {
        Some("Vietnam"@)
    } else if code == "VI"@ {
        Some("United States Virgin Islands"@)
    } else if code == "WF"@ {
        Some("Wallis and Futuna Islands"@)
    } else if code == "EH"@ {
        Some("Western Sahara"@)
    } else if code == "YE"@ {
        Some("Yemen"@)
    } else if code == "ZM"@ {
        Some("Zambia"@)
    } else if code == "ZW"@ {
        Some("Zimbabwe"@)
    } else {
        None
    }
}

/// The name shown for a country code: the table's entry, or the code itself.
pub open spec fn country_name(code: Seq<char>) -> Seq<char> {
    match country_entry(code) {
        Some(name) => name,
        None => code,
    }
}

/// Every string has a language name: the one the table lists for it, or the string itself
/// when the table lists none.
pub proof fn language_name_is_total(code: Seq<char>)
    ensures
        language_entry(code) is Some ==> language_name(code) == language_entry(code).unwrap(),
        language_entry(code) is None ==> language_name(code) == code,
{
}

/// Every string has a country name: the one the table lists for it, or the string itself
/// when the table lists none.
pub proof fn country_name_is_total(code: Seq<char>)
    ensures
        country_entry(code) is Some ==> country_name(code) == country_entry(code).unwrap(),
        country_entry(code) is None ==> country_name(code) == code,
{
}

/// Retrieves the friendly name of the provided language code if the language
/// is recognized. A code that is not recognized is handed back unchanged.
pub fn get_language_name_from_iso(lang: &str) -> (name: &str)
    ensures
        name@ == language_name(lang@),
{
    if text_eq(lang, "en") {
        return "English";
    }
    if text_eq(lang, "fr") {
        return "French";
    }
    if text_eq(lang, "it") {
        return "Italian";
    }
    if text_eq(lang, "ja") {
        return "Japanese";
    }
    if text_eq(lang, "ko") {
        return "Korean";
    }
    if text_eq(lang, "cn") {
        return "Cantonese";
    }
    lang
}

/// Retrieves the friendly name of the provided country code if the country is
/// recognized. A code that is not recognized is handed back unchanged.
pub fn get_country_name_from_iso(country: &str) -> (name: &str)
    ensures
        name@ == country_name(country@),
{
    if text_eq(country, "AF") {
        return "Afghanistan";
    }
    if text_eq(country, "AX") {
        return "Åland Islands";
    }
    if text_eq(country, "AL") {
        return "Albania";
    }
    if text_eq(country, "DZ") {
        return "Algeria";
    }
    if text_eq(country, "AS") {
        return "American Samoa";
    }
    if text_eq(country, "AD") {
        return "Andorra";
    }
    if text_eq(country, "AO") {
        return "Angola";
    }
    if text_eq(country, "AI") {
        return "Anguilla";
    }
    if text_eq(country, "AQ") {
        return "Antarctica";
    }
    if text_eq(country, "AG") {
        return "Antigua and Barbuda";
    }
    if text_eq(country, "AR") {
        return "Argentina";
    }
    if text_eq(country, "AM") {
        return "Armenia";
    }
    if text_eq(country, "AW") {
        return "Aruba";
    }
    if text_eq(country, "AU") {
        return "Australia";
    }
    if text_eq(country, "AT") {
        return "Austria";
    }
    if text_eq(country, "AZ") {
        return "Azerbaijan";
    }
    if text_eq(country, "BS") {
        return "Bahamas";
    }
    if text_eq(country, "BH") {
        return "Bahrain";
    }
    if text_eq(country, "BD") {
        return "Bangladesh";
    }
    if text_eq(country, "BB") {
        return "Barbados";
    }
    if text_eq(country, "BY") {
        return "Belarus";
    }
    if text_eq(country, "BE") {
        return "Belgium";
    }
    if text_eq(country, "BZ") {
        return "Belize";
    }
    if text_eq(country, "BJ") {
        return "Benin";
    }
    if text_eq(country, "BM") {
        return "Bermuda";
    }
    if text_eq(country, "BT") {
        return "Bhutan";
    }
    if text_eq(country, "BO") {
        return "Bolivia";
    }
    if text_eq(country, "BA") {
        return "Bosnia and Herzegovina";
    }
    if text_eq(country, "BW") {
        return "Botswana";
    }
    if text_eq(country, "BV") {
        return "Bouvet Island";
    }
    if text_eq(country, "BR") {
        return "Brazil";
    }
    if text_eq(country, "VG") {
        return "British Virgin Islands";
    }
    if text_eq(country, "IO") {
        return "British Indian Ocean Territory";
    }
    if text_eq(country, "BN") {
        return "Brunei Darussalam";
    }
    if text_eq(country, "BG") {
        return "Bulgaria";
    }
    if text_eq(country, "BF") {
        return "Burkina Faso";
    }
    if text_eq(country, "BI") {
        return "Burundi";
    }
    if text_eq(country, "KH") {
        return "Cambodia";
    }
    if text_eq(country, "CM") {
        return "Cameroon";
    }
    if text_eq(country, "CA") {
        return "Canada";
    }
    if text_eq(country, "CV") {
        return "Cape Verde";
    }
    if text_eq(country, "KY") {
        return "Cayman Islands";
    }
    if text_eq(country, "CF") {
        return "Central African Republic";
    }
    if text_eq(country, "TD") {
        return "Chad";
    }
    if text_eq(country, "CL") {
        return "Chile";
    }
    if text_eq(country, "CN") {
        return "China";
    }
    if text_eq(country, "HK") {
        return "Hong Kong, SAR China";
    }
    if text_eq(country, "MO") {
        return "Macao, SAR China";
    }
    if text_eq(country, "CX") {
        return "Christmas Island";
    }
    if text_eq(country, "CC") {
        return "Cocos (Keeling) Islands";
    }
    if text_eq(country, "CO") {
        return "Colombia";
    }
    if text_eq(country, "KM") {
        return "Comoros";
    }
    if text_eq(country, "CG") {
        return "Congo (Brazzaville)";
    }
    if text_eq(country, "CD") {
        return "Congo, (Kinshasa)";
    }
    if text_eq(country, "CK") {
        return "Cook Islands";
    }
    if text_eq(country, "CR") {
        return "Costa Rica";
    }
    if text_eq(country, "CI") {
        return "Côte d'Ivoire";
    }
    if text_eq(country, "HR") {
        return "Croatia";
    }
    if text_eq(country, "CU") {
        return "Cuba";
    }
    if text_eq(country, "CY") {
        return "Cyprus";
    }
    if text_eq(country, "CZ") {
        return "Czech Republic";
    }
    if text_eq(country, "DK") {
        return "Denmark";
    }
    if text_eq(country, "DJ") {
        return "Djibouti";
    }
    if text_eq(country, "DM") {
        return "Dominica";
    }
    if text_eq(country, "DO") {
        return "Dominican Republic";
    }
    if text_eq(country, "EC") {
        return "Ecuador";
    }
    if text_eq(country, "EG") {
        return "Egypt";
    }
    if text_eq(country, "SV") {
        return "El Salvador";
    }
    if text_eq(country, "GQ") {
        return "Equatorial Guinea";
    }
    if text_eq(country, "ER") {
        return "Eritrea";
    }
    if text_eq(country, "EE") {
        return "Estonia";
    }
    if text_eq(country, "ET") {
        return "Ethiopia";
    }
    if text_eq(country, "FK") {
        return "Falkland Islands (Malvinas)";
    }
    if text_eq(country, "FO") {
        return "Faroe Islands";
    }
    if text_eq(country, "FJ") {
        return "Fiji";
    }
    if text_eq(country, "FI") {
        return "Finland";
    }
    if text_eq(country, "FR") {
        return "France";
    }
    if text_eq(country, "GF") {
        return "French Guiana";
    }
    if text_eq(country, "PF") {
        return "French Polynesia";
    }
    if text_eq(country, "TF") {
        return "French Southern Territories";
    }
    if text_eq(country, "GA") {
        return "Gabon";
    }
    if text_eq(country, "GM") {
        return "Gambia";
    }
    if text_eq(country, "GE") {
        return "Georgia";
    }
    if text_eq(country, "DE") {
        return "Germany";
    }
    if text_eq(country, "GH") {
        return "Ghana";
    }
    if text_eq(country, "GI") {
        return "Gibraltar";
    }
    if text_eq(country, "GR") {
        return "Greece";
    }
    if text_eq(country, "GL") {
        return "Greenland";
    }
    if text_eq(country, "GD") {
        return "Grenada";
    }
    if text_eq(country, "GP") {
        return "Guadeloupe";
    }
    if text_eq(country, "GU") {
        return "Guam";
    }
    if text_eq(country, "GT") {
        return "Guatemala";
    }
    if text_eq(country, "GG") {
        return "Guernsey";
    }
    if text_eq(country, "GN") {
        return "Guinea";
    }
    if text_eq(country, "GW") {
        return "Guinea-Bissau";
    }
    if text_eq(country, "GY") {
        return "Guyana";
    }
    if text_eq(country, "HT") {
        return "Haiti";
    }
    if text_eq(country, "HM") {
        return "Heard and McDonald Islands";
    }
    if text_eq(country, "VA") {
        return "Holy See (Vatican City State)";
    }
    if text_eq(country, "HN") {
        return "Honduras";
    }
    if text_eq(country, "HU") {
        return "Hungary";
    }
    if text_eq(country, "IS") {
        return "Iceland";
    }
    if text_eq(country, "IN") {
        return "India";
    }
    if text_eq(country, "ID") {
        return "Indonesia";
    }
    if text_eq(country, "IR") {
        return "Islamic Republic of Iran";
    }
    if text_eq(country, "IQ") {
        return "Iraq";
    }
    if text_eq(country, "IE") {
        return "Ireland";
    }
    if text_eq(country, "IM") {
        return "Isle of Man";
    }
    if text_eq(country, "IL") {
        return "Israel";
    }
    if text_eq(country, "IT") {
        return "Italy";
    }
    if text_eq(country, "JM") {
        return "Jamaica";
    }
    if text_eq(country, "JP") {
        return "Japan";
    }
    if text_eq(country, "JE") {
        return "Jersey";
    }
    if text_eq(country, "JO") {
        return "Jordan";
    }
    if text_eq(country, "KZ") {
        return "Kazakhstan";
    }
    if text_eq(country, "KE") {
        return "Kenya";
    }
    if text_eq(country, "KI") {
        return "Kiribati";
    }
    if text_eq(country, "XK") {
        return "Kosovo";
    }
    if text_eq(country, "KP") {
        return "North Korea";
    }
    if text_eq(country, "KR") {
        return "South Korea";
    }
    if text_eq(country, "KW") {
        return "Kuwait";
    }
    if text_eq(country, "KG") {
        return "Kyrgyzstan";
    }
    if text_eq(country, "LA") {
        return "Lao PDR";
    }
    if text_eq(country, "LV") {
        return "Latvia";
    }
    if text_eq(country, "LB") {
        return "Lebanon";
    }
    if text_eq(country, "LS") {
        return "Lesotho";
    }
    if text_eq(country, "LR") {
        return "Liberia";
    }
    if text_eq(country, "LY") {
        return "Libya";
    }
    if text_eq(country, "LI") {
        return "Liechtenstein";
    }
    if text_eq(country, "LT") {
        return "Lithuania";
    }
    if text_eq(country, "LU") {
        return "Luxembourg";
    }
    if text_eq(country, "MK") {
        return "Republic of Macedonia";
    }
    if text_eq(country, "MG") {
        return "Madagascar";
    }
    if text_eq(country, "MW") {
        return "Malawi";
    }
    if text_eq(country, "MY") {
        return "Malaysia";
    }
    if text_eq(country, "MV") {
        return "Maldives";
    }
    if text_eq(country, "ML") {
        return "Mali";
    }
    if text_eq(country, "MT") {
        return "Malta";
    }
    if text_eq(country, "MH") {
        return "Marshall Islands";
    }
    if text_eq(country, "MQ") {
        return "Martinique";
    }
    if text_eq(country, "MR") {
        return "Mauritania";
    }
    if text_eq(country, "MU") {
        return "Mauritius";
    }
    if text_eq(country, "YT") {
        return "Mayotte";
    }
    if text_eq(country, "MX") {
        return "Mexico";
    }
    if text_eq(country, "FM") {
        return "Federated States of Micronesia";
    }
    if text_eq(country, "MD") {
        return "Moldova";
    }
    if text_eq(country, "MC") {
        return "Monaco";
    }
    if text_eq(country, "MN") {
        return "Mongolia";
    }
    if text_eq(country, "ME") {
        return "Montenegro";
    }
    if text_eq(country, "MS") {
        return "Montserrat";
    }
    if text_eq(country, "MA") {
        return "Morocco";
    }
    if text_eq(country, "MZ") {
        return "Mozambique";
    }
    if text_eq(country, "MM") {
        return "Myanmar";
    }
    if text_eq(country, "NA") {
        return "Namibia";
    }
    if text_eq(country, "NR") {
        return "Nauru";
    }
    if text_eq(country, "NP") {
        return "Nepal";
    }
    if text_eq(country, "NL") {
        return "Netherlands";
    }
    if text_eq(country, "AN") {
        return "Netherlands Antilles";
    }
    if text_eq(country, "NC") {
        return "New Caledonia";
    }
    if text_eq(country, "NZ") {
        return "New Zealand";
    }
    if text_eq(country, "NI") {
        return "Nicaragua";
    }
    if text_eq(country, "NE") {
        return "Niger";
    }
    if text_eq(country, "NG") {
        return "Nigeria";
    }
    if text_eq(country, "NU") {
        return "Niue";
    }
    if text_eq(country, "NF") {
        return "Norfolk Island";
    }
    if text_eq(country, "MP") {
        return "Northern Mariana Islands";
    }
    if text_eq(country, "NO") {
        return "Norway";
    }
    if text_eq(country, "OM") {
        return "Oman";
    }
    if text_eq(country, "PK") {
        return "Pakistan";
    }
    if text_eq(country, "PW") {
        return "Palau";
    }
    if text_eq(country, "PS") {
        return "Palestinian Territory";
    }
    if text_eq(country, "PA") {
        return "Panama";
    }
    if text_eq(country, "PG") {
        return "Papua New Guinea";
    }
    if text_eq(country, "PE") {
        return "Peru";
    }
    if text_eq(country, "PH") {
        return "Philippines";
    }
    if text_eq(country, "PN") {
        return "Pitcairn";
    }
    if text_eq(country, "PL") {
        return "Poland";
    }
    if text_eq(country, "PT") {
        return "Portugal";
    }
    if text_eq(country, "PR") {
        return "Puerto Rico";
    }
    if text_eq(country, "QA") {
        return "Qatar";
    }
    if text_eq(country, "RE") {
        return "Réunion";
    }
    if text_eq(country, "RO") {
        return "Romania";
    }
    if text_eq(country, "RU") {
        return "Russia (Russian Federation)";
    }
    if text_eq(country, "RW") {
        return "Rwanda";
    }
    if text_eq(country, "BL") {
        return "Saint-Barthélemy";
    }
    if text_eq(country, "SH") {
        return "Saint Helena";
    }
    if text_eq(country, "KN") {
        return "Saint Kitts and Nevis";
    }
    if text_eq(country, "LC") {
        return "Saint Lucia";
    }
    if text_eq(country, "MF") {
        return "Saint-Martin (French part)";
    }
    if text_eq(country, "PM") {
        return "Saint Pierre and Miquelon";
    }
    if text_eq(country, "VC") {
        return "Saint Vincent and Grenadines";
    }
    if text_eq(country, "WS") {
        return "Samoa";
    }
    if text_eq(country, "SM") {
        return "San Marino";
    }
    if text_eq(country, "ST") {
        return "Sao Tome and Principe";
    }
    if text_eq(country, "SA") {
        return "Saudi Arabia";
    }
    if text_eq(country, "SN") {
        return "Senegal";
    }
    if text_eq(country, "RS") {
        return "Serbia";
    }
    if text_eq(country, "SC") {
        return "Seychelles";
    }
    if text_eq(country, "SL") {
        return "Sierra Leone";
    }
    if text_eq(country, "SG") {
        return "Singapore";
    }
    if text_eq(country, "SI") {
        return "Slovenia";
    }
    if text_eq(country, "SB") {
        return "Solomon Islands";
    }
    if text_eq(country, "SO") {
        return "Somalia";
    }
    if text_eq(country, "ZA") {
        return "South Africa";
    }
    if text_eq(country, "GS") {
        return "South Georgia and the South Sandwich Islands";
    }
    if text_eq(country, "SS") {
        return "South Sudan";
    }
    if text_eq(country, "ES") {
        return "Spain";
    }
    if text_eq(country, "LK") {
        return "Sri Lanka";
    }
    if text_eq(country, "SR") {
        return "Suriname";
    }
    if text_eq(country, "SJ") {
        return "Svalbard and Jan Mayen Islands";
    }
    if text_eq(country, "SZ") {
        return "Swaziland";
    }
    if text_eq(country, "SE") {
        return "Sweden";
    }
    if text_eq(country, "CH") {
        return "Switzerland";
    }
    if text_eq(country, "SY") {
        return "Syrian Arab Republic (Syria)";
    }
    if text_eq(country, "TW") {
        return "Taiwan (Republic of China)";
    }
    if text_eq(country, "TJ") {
        return "Tajikistan";
    }
    if text_eq(country, "TZ") {
        return "United Republic of Tanzania";
    }
    if text_eq(country, "TH") {
        return "Thailand";
    }
    if text_eq(country, "TL") {
        return "Timor-Leste";
    }
    if text_eq(country, "TG") {
        return "Togo";
    }
    if text_eq(country, "TK") {
        return "Tokelau";
    }
    if text_eq(country, "TO") {
        return "Tonga";
    }
    if text_eq(country, "TT") {
        return "Trinidad and Tobago";
    }
    if text_eq(country, "TN") {
        return "Tunisia";
    }
    if text_eq(country, "TR") {
        return "Türkiye";
    }
    if text_eq(country, "TM") {
        return "Turkmenistan";
    }
    if text_eq(country, "TC") {
        return "Turks and Caicos Islands";
    }
    if text_eq(country, "TV") {
        return "Tuvalu";
    }
    if text_eq(country, "UG") {
        return "Uganda";
    }
    if text_eq(country, "UA") {
        return "Ukraine";
    }
    if text_eq(country, "AE") {
        return "United Arab Emirates";
    }
    if text_eq(country, "GB") {
        return "United Kingdom";
    }
    if text_eq(country, "US") {
        return "United States";
    }
    if text_eq(country, "UM") {
        return "US Minor Outlying Islands";
    }
    if text_eq(country, "UY") {
        return "Uruguay";
    }
    if text_eq(country, "UZ") {
        return "Uzbekistan";
    }
    if text_eq(country, "VU") {
        return "Vanuatu";
    }
    if text_eq(country, "VE") {
        return "Venezuela";
    }
    if text_eq(country, "VN") {
        return "Vietnam";
    }
    if text_eq(country, "VI") {
        return "United States Virgin Islands";
    }
    if text_eq(country, "WF") {
        return "Wallis and Futuna Islands";
    }
    if text_eq(country, "EH") {
        return "Western Sahara";
    }
    if text_eq(country, "YE") {
        return "Yemen";
    }
    if text_eq(country, "ZM") {
        return "Zambia";
    }
    if text_eq(country, "ZW") {
        return "Zimbabwe";
    }
    country
}

} // verus!
