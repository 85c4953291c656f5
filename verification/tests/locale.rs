use taliyah::locale::{get_country_name_from_iso, get_language_name_from_iso};

#[test]
fn known_language_codes_have_names() {
    assert_eq!(get_language_name_from_iso("en"), "English");
    assert_eq!(get_language_name_from_iso("fr"), "French");
    assert_eq!(get_language_name_from_iso("it"), "Italian");
    assert_eq!(get_language_name_from_iso("ja"), "Japanese");
    assert_eq!(get_language_name_from_iso("ko"), "Korean");
    assert_eq!(get_language_name_from_iso("cn"), "Cantonese");
}

#[test]
fn unknown_language_code_comes_back() {
    assert_eq!(get_language_name_from_iso("de"), "de");
    assert_eq!(get_language_name_from_iso("EN"), "EN");
    assert_eq!(get_language_name_from_iso("english"), "english");
    assert_eq!(get_language_name_from_iso(""), "");
    assert_eq!(get_language_name_from_iso("e"), "e");
    assert_eq!(get_language_name_from_iso("日本"), "日本");
}

#[test]
fn known_country_codes_have_names() {
    assert_eq!(get_country_name_from_iso("AF"), "Afghanistan");
    assert_eq!(get_country_name_from_iso("US"), "United States");
    assert_eq!(get_country_name_from_iso("GB"), "United Kingdom");
    assert_eq!(get_country_name_from_iso("JP"), "Japan");
    assert_eq!(get_country_name_from_iso("KR"), "South Korea");
    assert_eq!(get_country_name_from_iso("HK"), "Hong Kong, SAR China");
    assert_eq!(get_country_name_from_iso("ZW"), "Zimbabwe");
}

#[test]
fn armenia_and_aruba_have_their_own_codes() {
    assert_eq!(get_country_name_from_iso("AM"), "Armenia");
    assert_eq!(get_country_name_from_iso("AW"), "Aruba");
    assert_eq!(get_country_name_from_iso("AR"), "Argentina");
}

#[test]
fn country_names_are_spelled_out() {
    assert_eq!(get_country_name_from_iso("CO"), "Colombia");
    assert_eq!(get_country_name_from_iso("DM"), "Dominica");
    assert_eq!(get_country_name_from_iso("DO"), "Dominican Republic");
    assert_eq!(get_country_name_from_iso("ET"), "Ethiopia");
    assert_eq!(get_country_name_from_iso("NR"), "Nauru");
    assert_eq!(get_country_name_from_iso("SY"), "Syrian Arab Republic (Syria)");
    assert_eq!(get_country_name_from_iso("TJ"), "Tajikistan");
    assert_eq!(get_country_name_from_iso("VE"), "Venezuela");
    assert_eq!(get_country_name_from_iso("HM"), "Heard and McDonald Islands");
}

#[test]
fn country_names_keep_their_accents() {
    assert_eq!(get_country_name_from_iso("AX"), "Åland Islands");
    assert_eq!(get_country_name_from_iso("CI"), "Côte d'Ivoire");
    assert_eq!(get_country_name_from_iso("RE"), "Réunion");
    assert_eq!(get_country_name_from_iso("BL"), "Saint-Barthélemy");
    assert_eq!(get_country_name_from_iso("TR"), "Türkiye");
}

#[test]
fn unknown_country_code_comes_back() {
    assert_eq!(get_country_name_from_iso("ZZ"), "ZZ");
    assert_eq!(get_country_name_from_iso("us"), "us");
    assert_eq!(get_country_name_from_iso("USA"), "USA");
    assert_eq!(get_country_name_from_iso(""), "");
    assert_eq!(get_country_name_from_iso("U"), "U");
    assert_eq!(get_country_name_from_iso("ÅX"), "ÅX");
}

#[test]
fn language_and_country_tables_are_apart() {
    assert_eq!(get_language_name_from_iso("FR"), "FR");
    assert_eq!(get_country_name_from_iso("FR"), "France");
    assert_eq!(get_language_name_from_iso("it"), "Italian");
    assert_eq!(get_country_name_from_iso("it"), "it");
}

#[test]
fn every_input_has_a_name() {
    let inputs = ["", " ", "x", "xx", "XX", "en", "US", "a long text that is no code", "\n", "🎬"];
    for input in inputs {
        let language = get_language_name_from_iso(input);
        let country = get_country_name_from_iso(input);
        assert!(language == input || !language.is_empty());
        assert!(country == input || !country.is_empty());
    }
}
