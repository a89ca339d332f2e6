//! The directory of per-country dialing rules: the record type, its
//! mathematical view, and the table itself. The table covers a selection of
//! territories; for the United States and Canada it lists a selection of
//! area codes as mobile prefixes.
use vstd::prelude::*;

use crate::text::all_digits;

verus! {

/// The dialing rules of one territory.
#[derive(Debug, PartialEq, Eq)]
pub struct ISO3166 {
    /// Two-letter identifier.
    pub alpha2: &'static str,
    /// Three-letter identifier.
    pub alpha3: &'static str,
    /// Calling code, as digits.
    pub country_code: &'static str,
    /// Full name of the territory.
    pub country_name: &'static str,
    /// Prefixes that a valid national number starts with.
    pub mobile_begin_with: Vec<&'static str>,
    /// Accepted digit counts of a national number.
    pub phone_number_lengths: Vec<usize>,
}

/// The mathematical form of a record: texts as character sequences.
pub struct CountryRule {
    pub alpha2: Seq<char>,
    pub alpha3: Seq<char>,
    pub country_code: Seq<char>,
    pub country_name: Seq<char>,
    pub mobile_begin_with: Seq<Seq<char>>,
    pub phone_number_lengths: Seq<usize>,
}

impl View for ISO3166 {
    type V = CountryRule;

    open spec fn view(&self) -> CountryRule {
        CountryRule {
            alpha2: self.alpha2@,
            alpha3: self.alpha3@,
            country_code: self.country_code@,
            country_name: self.country_name@,
            mobile_begin_with: self.mobile_begin_with@.map_values(|p: &'static str| p@),
            phone_number_lengths: self.phone_number_lengths@,
        }
    }
}

impl CountryRule {
    /// A calling code and prefixes made of a few digits, and lengths that
    /// leave room for the calling code. A calling code never starts with `0`,
    /// nor with the domestic trunk sequence `8` / `89`.
    pub open spec fn wf(self) -> bool {
        &&& all_digits(self.country_code)
        &&& 1 <= self.country_code.len() <= 8
        &&& self.country_code[0] != '0'
        &&& self.country_code[0] == '8' ==> self.country_code.len() >= 2
            && self.country_code[1] != '9'
        &&& forall|j: int|
            0 <= j < self.mobile_begin_with.len() ==> all_digits(
                #[trigger] self.mobile_begin_with[j],
            ) && self.mobile_begin_with[j].len() <= 8
        &&& forall|k: int|
            0 <= k < self.phone_number_lengths.len() ==> #[trigger] self.phone_number_lengths[k]
                <= 64
    }
}

/// The views of a sequence of records.
pub open spec fn views(s: Seq<ISO3166>) -> Seq<CountryRule> {
    s.map_values(|r: ISO3166| r@)
}

/// The rule for Antarctica.
pub open spec fn rule_aq() -> CountryRule {
    CountryRule {
        alpha2: "AQ"@,
        alpha3: "ATA"@,
        country_code: "672"@,
        country_name: "Antarctica"@,
        mobile_begin_with: Seq::empty(),
        phone_number_lengths: seq![6usize],
    }
}

proof fn lemma_rule_aq_wf()
    ensures
        rule_aq().wf(),
{
    reveal_strlit("672");
}

/// The record of Antarctica.
pub fn iso3166_aq() -> (r: ISO3166)
    ensures
        r@ == rule_aq(),
        r@.wf(),
{
    proof {
        lemma_rule_aq_wf();
    }
    let r = ISO3166 {
        alpha2: "AQ",
        alpha3: "ATA",
        country_code: "672",
        country_name: "Antarctica",
        mobile_begin_with: Vec::new(),
        phone_number_lengths: vec![6],
    };
    assert(r@.mobile_begin_with =~= rule_aq().mobile_begin_with);
    assert(r@.phone_number_lengths =~= rule_aq().phone_number_lengths);
    r
}

/// The rule for Australia.
pub open spec fn rule_au() -> CountryRule {
    CountryRule {
        alpha2: "AU"@,
        alpha3: "AUS"@,
        country_code: "61"@,
        country_name: "Australia"@,
        mobile_begin_with: seq!["4"@],
        phone_number_lengths: seq![9usize],
    }
}

proof fn lemma_rule_au_wf()
    ensures
        rule_au().wf(),
{
    reveal_strlit("61");
    reveal_strlit("4");
}

/// The record of Australia.
pub fn iso3166_au() -> (r: ISO3166)
    ensures
        r@ == rule_au(),
        r@.wf(),
{
    proof {
        lemma_rule_au_wf();
    }
    let r = ISO3166 {
        alpha2: "AU",
        alpha3: "AUS",
        country_code: "61",
        country_name: "Australia",
        mobile_begin_with: vec!["4"],
        phone_number_lengths: vec![9],
    };
    assert(r@.mobile_begin_with =~= rule_au().mobile_begin_with);
    assert(r@.phone_number_lengths =~= rule_au().phone_number_lengths);
    r
}

/// The rule for Canada.
pub open spec fn rule_ca() -> CountryRule {
    CountryRule {
        alpha2: "CA"@,
        alpha3: "CAN"@,
        country_code: "1"@,
        country_name: "Canada"@,
        mobile_begin_with: seq!["204"@, "226"@, "236"@, "249"@, "250"@, "289"@, "306"@, "343"@, "365"@, "403"@, "416"@, "418"@, "431"@, "437"@, "438"@, "450"@, "506"@, "514"@, "519"@, "579"@, "581"@, "587"@, "604"@, "613"@, "647"@, "705"@, "709"@, "778"@, "780"@, "807"@, "819"@, "867"@, "873"@, "902"@, "905"@],
        phone_number_lengths: seq![10usize],
    }
}

proof fn lemma_rule_ca_wf()
    ensures
        rule_ca().wf(),
{
    reveal_strlit("1");
    reveal_strlit("204");
    reveal_strlit("226");
    reveal_strlit("236");
    reveal_strlit("249");
    reveal_strlit("250");
    reveal_strlit("289");
    reveal_strlit("306");
    reveal_strlit("343");
    reveal_strlit("365");
    reveal_strlit("403");
    reveal_strlit("416");
    reveal_strlit("418");
    reveal_strlit("431");
    reveal_strlit("437");
    reveal_strlit("438");
    reveal_strlit("450");
    reveal_strlit("506");
    reveal_strlit("514");
    reveal_strlit("519");
    reveal_strlit("579");
    reveal_strlit("581");
    reveal_strlit("587");
    reveal_strlit("604");
    reveal_strlit("613");
    reveal_strlit("647");
    reveal_strlit("705");
    reveal_strlit("709");
    reveal_strlit("778");
    reveal_strlit("780");
    reveal_strlit("807");
    reveal_strlit("819");
    reveal_strlit("867");
    reveal_strlit("873");
    reveal_strlit("902");
    reveal_strlit("905");
}

/// The record of Canada.
pub fn iso3166_ca() -> (r: ISO3166)
    ensures
        r@ == rule_ca(),
        r@.wf(),
{
    proof {
        lemma_rule_ca_wf();
    }
    let r = ISO3166 {
        alpha2: "CA",
        alpha3: "CAN",
        country_code: "1",
        country_name: "Canada",
        mobile_begin_with: vec!["204", "226", "236", "249", "250", "289", "306", "343", "365", "403", "416", "418", "431", "437", "438", "450", "506", "514", "519", "579", "581", "587", "604", "613", "647", "705", "709", "778", "780", "807", "819", "867", "873", "902", "905"],
        phone_number_lengths: vec![10],
    };
    assert(r@.mobile_begin_with =~= rule_ca().mobile_begin_with);
    assert(r@.phone_number_lengths =~= rule_ca().phone_number_lengths);
    r
}

/// The rule for China.
pub open spec fn rule_cn() -> CountryRule {
    CountryRule {
        alpha2: "CN"@,
        alpha3: "CHN"@,
        country_code: "86"@,
        country_name: "China"@,
        mobile_begin_with: seq!["13"@, "14"@, "15"@, "16"@, "17"@, "18"@, "19"@],
        phone_number_lengths: seq![11usize],
    }
}

proof fn lemma_rule_cn_wf()
    ensures
        rule_cn().wf(),
{
    reveal_strlit("86");
    reveal_strlit("13");
    reveal_strlit("14");
    reveal_strlit("15");
    reveal_strlit("16");
    reveal_strlit("17");
    reveal_strlit("18");
    reveal_strlit("19");
}

/// The record of China.
pub fn iso3166_cn() -> (r: ISO3166)
    ensures
        r@ == rule_cn(),
        r@.wf(),
{
    proof {
        lemma_rule_cn_wf();
    }
    let r = ISO3166 {
        alpha2: "CN",
        alpha3: "CHN",
        country_code: "86",
        country_name: "China",
        mobile_begin_with: vec!["13", "14", "15", "16", "17", "18", "19"],
        phone_number_lengths: vec![11],
    };
    assert(r@.mobile_begin_with =~= rule_cn().mobile_begin_with);
    assert(r@.phone_number_lengths =~= rule_cn().phone_number_lengths);
    r
}

/// The rule for Côte d'Ivoire.
pub open spec fn rule_ci() -> CountryRule {
    CountryRule {
        alpha2: "CI"@,
        alpha3: "CIV"@,
        country_code: "225"@,
        country_name: "Côte d'Ivoire"@,
        mobile_begin_with: seq!["0"@, "4"@, "5"@, "6"@],
        phone_number_lengths: seq![8usize],
    }
}

proof fn lemma_rule_ci_wf()
    ensures
        rule_ci().wf(),
{
    reveal_strlit("225");
    reveal_strlit("0");
    reveal_strlit("4");
    reveal_strlit("5");
    reveal_strlit("6");
}

/// The record of Côte d'Ivoire.
pub fn iso3166_ci() -> (r: ISO3166)
    ensures
        r@ == rule_ci(),
        r@.wf(),
{
    proof {
        lemma_rule_ci_wf();
    }
    let r = ISO3166 {
        alpha2: "CI",
        alpha3: "CIV",
        country_code: "225",
        country_name: "Côte d'Ivoire",
        mobile_begin_with: vec!["0", "4", "5", "6"],
        phone_number_lengths: vec![8],
    };
    assert(r@.mobile_begin_with =~= rule_ci().mobile_begin_with);
    assert(r@.phone_number_lengths =~= rule_ci().phone_number_lengths);
    r
}

/// The rule for Congo.
pub open spec fn rule_cg() -> CountryRule {
    CountryRule {
        alpha2: "CG"@,
        alpha3: "COG"@,
        country_code: "242"@,
        country_name: "Congo"@,
        mobile_begin_with: seq!["0"@],
        phone_number_lengths: seq![9usize],
    }
}

proof fn lemma_rule_cg_wf()
    ensures
        rule_cg().wf(),
{
    reveal_strlit("242");
    reveal_strlit("0");
}

/// The record of Congo.
pub fn iso3166_cg() -> (r: ISO3166)
    ensures
        r@ == rule_cg(),
        r@.wf(),
{
    proof {
        lemma_rule_cg_wf();
    }
    let r = ISO3166 {
        alpha2: "CG",
        alpha3: "COG",
        country_code: "242",
        country_name: "Congo",
        mobile_begin_with: vec!["0"],
        phone_number_lengths: vec![9],
    };
    assert(r@.mobile_begin_with =~= rule_cg().mobile_begin_with);
    assert(r@.phone_number_lengths =~= rule_cg().phone_number_lengths);
    r
}

/// The rule for Germany.
pub open spec fn rule_de() -> CountryRule {
    CountryRule {
        alpha2: "DE"@,
        alpha3: "DEU"@,
        country_code: "49"@,
        country_name: "Germany"@,
        mobile_begin_with: seq!["15"@, "16"@, "17"@],
        phone_number_lengths: seq![10usize, 11usize],
    }
}

proof fn lemma_rule_de_wf()
    ensures
        rule_de().wf(),
{
    reveal_strlit("49");
    reveal_strlit("15");
    reveal_strlit("16");
    reveal_strlit("17");
}

/// The record of Germany.
pub fn iso3166_de() -> (r: ISO3166)
    ensures
        r@ == rule_de(),
        r@.wf(),
{
    proof {
        lemma_rule_de_wf();
    }
    let r = ISO3166 {
        alpha2: "DE",
        alpha3: "DEU",
        country_code: "49",
        country_name: "Germany",
        mobile_begin_with: vec!["15", "16", "17"],
        phone_number_lengths: vec![10, 11],
    };
    assert(r@.mobile_begin_with =~= rule_de().mobile_begin_with);
    assert(r@.phone_number_lengths =~= rule_de().phone_number_lengths);
    r
}

/// The rule for Spain.
pub open spec fn rule_es() -> CountryRule {
    CountryRule {
        alpha2: "ES"@,
        alpha3: "ESP"@,
        country_code: "34"@,
        country_name: "Spain"@,
        mobile_begin_with: seq!["6"@, "7"@],
        phone_number_lengths: seq![9usize],
    }
}

proof fn lemma_rule_es_wf()
    ensures
        rule_es().wf(),
{
    reveal_strlit("34");
    reveal_strlit("6");
    reveal_strlit("7");
}

/// The record of Spain.
pub fn iso3166_es() -> (r: ISO3166)
    ensures
        r@ == rule_es(),
        r@.wf(),
{
    proof {
        lemma_rule_es_wf();
    }
    let r = ISO3166 {
        alpha2: "ES",
        alpha3: "ESP",
        country_code: "34",
        country_name: "Spain",
        mobile_begin_with: vec!["6", "7"],
        phone_number_lengths: vec![9],
    };
    assert(r@.mobile_begin_with =~= rule_es().mobile_begin_with);
    assert(r@.phone_number_lengths =~= rule_es().phone_number_lengths);
    r
}

/// The rule for France.
pub open spec fn rule_fr() -> CountryRule {
    CountryRule {
        alpha2: "FR"@,
        alpha3: "FRA"@,
        country_code: "33"@,
        country_name: "France"@,
        mobile_begin_with: seq!["6"@, "7"@],
        phone_number_lengths: seq![9usize],
    }
}

proof fn lemma_rule_fr_wf()
    ensures
        rule_fr().wf(),
{
    reveal_strlit("33");
    reveal_strlit("6");
    reveal_strlit("7");
}

/// The record of France.
pub fn iso3166_fr() -> (r: ISO3166)
    ensures
        r@ == rule_fr(),
        r@.wf(),
{
    proof {
        lemma_rule_fr_wf();
    }
    let r = ISO3166 {
        alpha2: "FR",
        alpha3: "FRA",
        country_code: "33",
        country_name: "France",
        mobile_begin_with: vec!["6", "7"],
        phone_number_lengths: vec![9],
    };
    assert(r@.mobile_begin_with =~= rule_fr().mobile_begin_with);
    assert(r@.phone_number_lengths =~= rule_fr().phone_number_lengths);
    r
}

/// The rule for Gabon.
pub open spec fn rule_ga() -> CountryRule {
    CountryRule {
        alpha2: "GA"@,
        alpha3: "GAB"@,
        country_code: "241"@,
        country_name: "Gabon"@,
        mobile_begin_with: seq!["0"@, "2"@, "3"@, "4"@, "5"@, "6"@, "7"@],
        phone_number_lengths: seq![7usize, 8usize],
    }
}

proof fn lemma_rule_ga_wf()
    ensures
        rule_ga().wf(),
{
    reveal_strlit("241");
    reveal_strlit("0");
    reveal_strlit("2");
    reveal_strlit("3");
    reveal_strlit("4");
    reveal_strlit("5");
    reveal_strlit("6");
    reveal_strlit("7");
}

/// The record of Gabon.
pub fn iso3166_ga() -> (r: ISO3166)
    ensures
        r@ == rule_ga(),
        r@.wf(),
{
    proof {
        lemma_rule_ga_wf();
    }
    let r = ISO3166 {
        alpha2: "GA",
        alpha3: "GAB",
        country_code: "241",
        country_name: "Gabon",
        mobile_begin_with: vec!["0", "2", "3", "4", "5", "6", "7"],
        phone_number_lengths: vec![7, 8],
    };
    assert(r@.mobile_begin_with =~= rule_ga().mobile_begin_with);
    assert(r@.phone_number_lengths =~= rule_ga().phone_number_lengths);
    r
}

/// The rule for United Kingdom.
pub open spec fn rule_gb() -> CountryRule {
    CountryRule {
        alpha2: "GB"@,
        alpha3: "GBR"@,
        country_code: "44"@,
        country_name: "United Kingdom"@,
        mobile_begin_with: seq!["7"@],
        phone_number_lengths: seq![10usize],
    }
}

proof fn lemma_rule_gb_wf()
    ensures
        rule_gb().wf(),
{
    reveal_strlit("44");
    reveal_strlit("7");
}

/// The record of United Kingdom.
pub fn iso3166_gb() -> (r: ISO3166)
    ensures
        r@ == rule_gb(),
        r@.wf(),
{
    proof {
        lemma_rule_gb_wf();
    }
    let r = ISO3166 {
        alpha2: "GB",
        alpha3: "GBR",
        country_code: "44",
        country_name: "United Kingdom",
        mobile_begin_with: vec!["7"],
        phone_number_lengths: vec![10],
    };
    assert(r@.mobile_begin_with =~= rule_gb().mobile_begin_with);
    assert(r@.phone_number_lengths =~= rule_gb().phone_number_lengths);
    r
}

/// The rule for Hong Kong.
pub open spec fn rule_hk() -> CountryRule {
    CountryRule {
        alpha2: "HK"@,
        alpha3: "HKG"@,
        country_code: "852"@,
        country_name: "Hong Kong"@,
        mobile_begin_with: seq!["4"@, "5"@, "6"@, "70"@, "8"@, "9"@],
        phone_number_lengths: seq![8usize],
    }
}

proof fn lemma_rule_hk_wf()
    ensures
        rule_hk().wf(),
{
    reveal_strlit("852");
    reveal_strlit("4");
    reveal_strlit("5");
    reveal_strlit("6");
    reveal_strlit("70");
    reveal_strlit("8");
    reveal_strlit("9");
}

/// The record of Hong Kong.
pub fn iso3166_hk() -> (r: ISO3166)
    ensures
        r@ == rule_hk(),
        r@.wf(),
{
    proof {
        lemma_rule_hk_wf();
    }
    let r = ISO3166 {
        alpha2: "HK",
        alpha3: "HKG",
        country_code: "852",
        country_name: "Hong Kong",
        mobile_begin_with: vec!["4", "5", "6", "70", "8", "9"],
        phone_number_lengths: vec![8],
    };
    assert(r@.mobile_begin_with =~= rule_hk().mobile_begin_with);
    assert(r@.phone_number_lengths =~= rule_hk().phone_number_lengths);
    r
}

/// The rule for India.
pub open spec fn rule_in() -> CountryRule {
    CountryRule {
        alpha2: "IN"@,
        alpha3: "IND"@,
        country_code: "91"@,
        country_name: "India"@,
        mobile_begin_with: seq!["6"@, "7"@, "8"@, "9"@],
        phone_number_lengths: seq![10usize],
    }
}

proof fn lemma_rule_in_wf()
    ensures
        rule_in().wf(),
{
    reveal_strlit("91");
    reveal_strlit("6");
    reveal_strlit("7");
    reveal_strlit("8");
    reveal_strlit("9");
}

/// The record of India.
pub fn iso3166_in() -> (r: ISO3166)
    ensures
        r@ == rule_in(),
        r@.wf(),
{
    proof {
        lemma_rule_in_wf();
    }
    let r = ISO3166 {
        alpha2: "IN",
        alpha3: "IND",
        country_code: "91",
        country_name: "India",
        mobile_begin_with: vec!["6", "7", "8", "9"],
        phone_number_lengths: vec![10],
    };
    assert(r@.mobile_begin_with =~= rule_in().mobile_begin_with);
    assert(r@.phone_number_lengths =~= rule_in().phone_number_lengths);
    r
}

/// The rule for Italy.
pub open spec fn rule_it() -> CountryRule {
    CountryRule {
        alpha2: "IT"@,
        alpha3: "ITA"@,
        country_code: "39"@,
        country_name: "Italy"@,
        mobile_begin_with: seq!["3"@],
        phone_number_lengths: seq![9usize, 10usize],
    }
}

proof fn lemma_rule_it_wf()
    ensures
        rule_it().wf(),
{
    reveal_strlit("39");
    reveal_strlit("3");
}

/// The record of Italy.
pub fn iso3166_it() -> (r: ISO3166)
    ensures
        r@ == rule_it(),
        r@.wf(),
{
    proof {
        lemma_rule_it_wf();
    }
    let r = ISO3166 {
        alpha2: "IT",
        alpha3: "ITA",
        country_code: "39",
        country_name: "Italy",
        mobile_begin_with: vec!["3"],
        phone_number_lengths: vec![9, 10],
    };
    assert(r@.mobile_begin_with =~= rule_it().mobile_begin_with);
    assert(r@.phone_number_lengths =~= rule_it().phone_number_lengths);
    r
}

/// The rule for Japan.
pub open spec fn rule_jp() -> CountryRule {
    CountryRule {
        alpha2: "JP"@,
        alpha3: "JPN"@,
        country_code: "81"@,
        country_name: "Japan"@,
        mobile_begin_with: seq!["70"@, "80"@, "90"@],
        phone_number_lengths: seq![10usize],
    }
}

proof fn lemma_rule_jp_wf()
    ensures
        rule_jp().wf(),
{
    reveal_strlit("81");
    reveal_strlit("70");
    reveal_strlit("80");
    reveal_strlit("90");
}

/// The record of Japan.
pub fn iso3166_jp() -> (r: ISO3166)
    ensures
        r@ == rule_jp(),
        r@.wf(),
{
    proof {
        lemma_rule_jp_wf();
    }
    let r = ISO3166 {
        alpha2: "JP",
        alpha3: "JPN",
        country_code: "81",
        country_name: "Japan",
        mobile_begin_with: vec!["70", "80", "90"],
        phone_number_lengths: vec![10],
    };
    assert(r@.mobile_begin_with =~= rule_jp().mobile_begin_with);
    assert(r@.phone_number_lengths =~= rule_jp().phone_number_lengths);
    r
}

/// The rule for Korea, Republic of.
pub open spec fn rule_kr() -> CountryRule {
    CountryRule {
        alpha2: "KR"@,
        alpha3: "KOR"@,
        country_code: "82"@,
        country_name: "Korea, Republic of"@,
        mobile_begin_with: seq!["1"@],
        phone_number_lengths: seq![9usize, 10usize],
    }
}

proof fn lemma_rule_kr_wf()
    ensures
        rule_kr().wf(),
{
    reveal_strlit("82");
    reveal_strlit("1");
}

/// The record of Korea, Republic of.
pub fn iso3166_kr() -> (r: ISO3166)
    ensures
        r@ == rule_kr(),
        r@.wf(),
{
    proof {
        lemma_rule_kr_wf();
    }
    let r = ISO3166 {
        alpha2: "KR",
        alpha3: "KOR",
        country_code: "82",
        country_name: "Korea, Republic of",
        mobile_begin_with: vec!["1"],
        phone_number_lengths: vec![9, 10],
    };
    assert(r@.mobile_begin_with =~= rule_kr().mobile_begin_with);
    assert(r@.phone_number_lengths =~= rule_kr().phone_number_lengths);
    r
}

/// The rule for Russia.
pub open spec fn rule_ru() -> CountryRule {
    CountryRule {
        alpha2: "RU"@,
        alpha3: "RUS"@,
        country_code: "7"@,
        country_name: "Russia"@,
        mobile_begin_with: seq!["9"@],
        phone_number_lengths: seq![10usize],
    }
}

proof fn lemma_rule_ru_wf()
    ensures
        rule_ru().wf(),
{
    reveal_strlit("7");
    reveal_strlit("9");
}

/// The record of Russia.
pub fn iso3166_ru() -> (r: ISO3166)
    ensures
        r@ == rule_ru(),
        r@.wf(),
{
    proof {
        lemma_rule_ru_wf();
    }
    let r = ISO3166 {
        alpha2: "RU",
        alpha3: "RUS",
        country_code: "7",
        country_name: "Russia",
        mobile_begin_with: vec!["9"],
        phone_number_lengths: vec![10],
    };
    assert(r@.mobile_begin_with =~= rule_ru().mobile_begin_with);
    assert(r@.phone_number_lengths =~= rule_ru().phone_number_lengths);
    r
}

/// The rule for Singapore.
pub open spec fn rule_sg() -> CountryRule {
    CountryRule {
        alpha2: "SG"@,
        alpha3: "SGP"@,
        country_code: "65"@,
        country_name: "Singapore"@,
        mobile_begin_with: seq!["8"@, "9"@],
        phone_number_lengths: seq![8usize],
    }
}

proof fn lemma_rule_sg_wf()
    ensures
        rule_sg().wf(),
{
    reveal_strlit("65");
    reveal_strlit("8");
    reveal_strlit("9");
}

/// The record of Singapore.
pub fn iso3166_sg() -> (r: ISO3166)
    ensures
        r@ == rule_sg(),
        r@.wf(),
{
    proof {
        lemma_rule_sg_wf();
    }
    let r = ISO3166 {
        alpha2: "SG",
        alpha3: "SGP",
        country_code: "65",
        country_name: "Singapore",
        mobile_begin_with: vec!["8", "9"],
        phone_number_lengths: vec![8],
    };
    assert(r@.mobile_begin_with =~= rule_sg().mobile_begin_with);
    assert(r@.phone_number_lengths =~= rule_sg().phone_number_lengths);
    r
}

/// The rule for United States.
pub open spec fn rule_us() -> CountryRule {
    CountryRule {
        alpha2: "US"@,
        alpha3: "USA"@,
        country_code: "1"@,
        country_name: "United States"@,
        mobile_begin_with: seq!["201"@, "202"@, "203"@, "205"@, "206"@, "207"@, "208"@, "209"@, "210"@, "212"@, "213"@, "214"@, "215"@, "216"@, "217"@, "218"@, "219"@, "224"@, "225"@, "228"@, "229"@, "231"@, "234"@, "239"@, "240"@, "248"@, "251"@, "252"@, "253"@, "254"@, "256"@, "260"@, "262"@, "267"@, "269"@, "270"@, "272"@, "276"@, "281"@, "301"@, "302"@, "303"@, "304"@, "305"@, "307"@, "308"@, "309"@, "310"@, "312"@, "313"@, "314"@, "315"@, "316"@, "317"@, "318"@, "319"@, "320"@, "321"@, "323"@, "325"@, "330"@, "331"@, "334"@, "336"@, "337"@, "339"@, "347"@, "351"@, "352"@, "360"@, "361"@, "385"@, "386"@, "401"@, "402"@, "404"@, "405"@, "406"@, "407"@, "408"@, "409"@, "410"@, "412"@, "413"@, "414"@, "415"@, "417"@, "419"@, "423"@, "424"@, "425"@, "430"@, "432"@, "434"@, "435"@, "440"@, "442"@, "443"@, "469"@, "470"@, "475"@, "478"@, "479"@, "480"@, "484"@, "501"@, "502"@, "503"@, "504"@, "505"@, "507"@, "508"@, "509"@, "510"@, "512"@, "513"@, "515"@, "516"@, "517"@, "518"@, "520"@, "530"@, "540"@, "541"@, "551"@, "559"@, "561"@, "562"@, "563"@, "567"@, "570"@, "571"@, "573"@, "574"@, "575"@, "580"@, "585"@, "586"@, "601"@, "602"@, "603"@, "605"@, "606"@, "607"@, "608"@, "609"@, "610"@, "612"@, "614"@, "615"@, "616"@, "617"@, "618"@, "619"@, "620"@, "623"@, "626"@, "630"@, "631"@, "636"@, "641"@, "646"@, "650"@, "651"@, "657"@, "660"@, "661"@, "662"@, "667"@, "678"@, "682"@, "701"@, "702"@, "703"@, "704"@, "706"@, "707"@, "708"@, "712"@, "713"@, "714"@, "715"@, "716"@, "717"@, "718"@, "719"@, "720"@, "724"@, "727"@, "731"@, "732"@, "734"@, "740"@, "747"@, "754"@, "757"@, "760"@, "762"@, "763"@, "765"@, "769"@, "770"@, "772"@, "773"@, "774"@, "775"@, "779"@, "781"@, "785"@, "786"@, "801"@, "802"@, "803"@, "804"@, "805"@, "806"@, "808"@, "810"@, "812"@, "813"@, "814"@, "815"@, "816"@, "817"@, "818"@, "828"@, "830"@, "831"@, "832"@, "843"@, "845"@, "847"@, "848"@, "850"@, "856"@, "857"@, "858"@, "859"@, "860"@, "862"@, "863"@, "864"@, "865"@, "870"@, "872"@, "878"@, "901"@, "903"@, "904"@, "906"@, "907"@, "908"@, "909"@, "910"@, "912"@, "913"@, "914"@, "915"@, "916"@, "917"@, "918"@, "919"@, "920"@, "925"@, "928"@, "931"@, "936"@, "937"@, "940"@, "941"@, "947"@, "949"@, "951"@, "952"@, "954"@, "956"@, "970"@, "971"@, "972"@, "973"@, "978"@, "979"@, "980"@, "985"@, "989"@],
        phone_number_lengths: seq![10usize],
    }
}

proof fn lemma_rule_us_wf()
    ensures
        rule_us().wf(),
{
    reveal_strlit("1");
    reveal_strlit("201");
    reveal_strlit("202");
    reveal_strlit("203");
    reveal_strlit("205");
    reveal_strlit("206");
    reveal_strlit("207");
    reveal_strlit("208");
    reveal_strlit("209");
    reveal_strlit("210");
    reveal_strlit("212");
    reveal_strlit("213");
    reveal_strlit("214");
    reveal_strlit("215");
    reveal_strlit("216");
    reveal_strlit("217");
    reveal_strlit("218");
    reveal_strlit("219");
    reveal_strlit("224");
    reveal_strlit("225");
    reveal_strlit("228");
    reveal_strlit("229");
    reveal_strlit("231");
    reveal_strlit("234");
    reveal_strlit("239");
    reveal_strlit("240");
    reveal_strlit("248");
    reveal_strlit("251");
    reveal_strlit("252");
    reveal_strlit("253");
    reveal_strlit("254");
    reveal_strlit("256");
    reveal_strlit("260");
    reveal_strlit("262");
    reveal_strlit("267");
    reveal_strlit("269");
    reveal_strlit("270");
    reveal_strlit("272");
    reveal_strlit("276");
    reveal_strlit("281");
    reveal_strlit("301");
    reveal_strlit("302");
    reveal_strlit("303");
    reveal_strlit("304");
    reveal_strlit("305");
    reveal_strlit("307");
    reveal_strlit("308");
    reveal_strlit("309");
    reveal_strlit("310");
    reveal_strlit("312");
    reveal_strlit("313");
    reveal_strlit("314");
    reveal_strlit("315");
    reveal_strlit("316");
    reveal_strlit("317");
    reveal_strlit("318");
    reveal_strlit("319");
    reveal_strlit("320");
    reveal_strlit("321");
    reveal_strlit("323");
    reveal_strlit("325");
    reveal_strlit("330");
    reveal_strlit("331");
    reveal_strlit("334");
    reveal_strlit("336");
    reveal_strlit("337");
    reveal_strlit("339");
    reveal_strlit("347");
    reveal_strlit("351");
    reveal_strlit("352");
    reveal_strlit("360");
    reveal_strlit("361");
    reveal_strlit("385");
    reveal_strlit("386");
    reveal_strlit("401");
    reveal_strlit("402");
    reveal_strlit("404");
    reveal_strlit("405");
    reveal_strlit("406");
    reveal_strlit("407");
    reveal_strlit("408");
    reveal_strlit("409");
    reveal_strlit("410");
    reveal_strlit("412");
    reveal_strlit("413");
    reveal_strlit("414");
    reveal_strlit("415");
    reveal_strlit("417");
    reveal_strlit("419");
    reveal_strlit("423");
    reveal_strlit("424");
    reveal_strlit("425");
    reveal_strlit("430");
    reveal_strlit("432");
    reveal_strlit("434");
    reveal_strlit("435");
    reveal_strlit("440");
    reveal_strlit("442");
    reveal_strlit("443");
    reveal_strlit("469");
    reveal_strlit("470");
    reveal_strlit("475");
    reveal_strlit("478");
    reveal_strlit("479");
    reveal_strlit("480");
    reveal_strlit("484");
    reveal_strlit("501");
    reveal_strlit("502");
    reveal_strlit("503");
    reveal_strlit("504");
    reveal_strlit("505");
    reveal_strlit("507");
    reveal_strlit("508");
    reveal_strlit("509");
    reveal_strlit("510");
    reveal_strlit("512");
    reveal_strlit("513");
    reveal_strlit("515");
    reveal_strlit("516");
    reveal_strlit("517");
    reveal_strlit("518");
    reveal_strlit("520");
    reveal_strlit("530");
    reveal_strlit("540");
    reveal_strlit("541");
    reveal_strlit("551");
    reveal_strlit("559");
    reveal_strlit("561");
    reveal_strlit("562");
    reveal_strlit("563");
    reveal_strlit("567");
    reveal_strlit("570");
    reveal_strlit("571");
    reveal_strlit("573");
    reveal_strlit("574");
    reveal_strlit("575");
    reveal_strlit("580");
    reveal_strlit("585");
    reveal_strlit("586");
    reveal_strlit("601");
    reveal_strlit("602");
    reveal_strlit("603");
    reveal_strlit("605");
    reveal_strlit("606");
    reveal_strlit("607");
    reveal_strlit("608");
    reveal_strlit("609");
    reveal_strlit("610");
    reveal_strlit("612");
    reveal_strlit("614");
    reveal_strlit("615");
    reveal_strlit("616");
    reveal_strlit("617");
    reveal_strlit("618");
    reveal_strlit("619");
    reveal_strlit("620");
    reveal_strlit("623");
    reveal_strlit("626");
    reveal_strlit("630");
    reveal_strlit("631");
    reveal_strlit("636");
    reveal_strlit("641");
    reveal_strlit("646");
    reveal_strlit("650");
    reveal_strlit("651");
    reveal_strlit("657");
    reveal_strlit("660");
    reveal_strlit("661");
    reveal_strlit("662");
    reveal_strlit("667");
    reveal_strlit("678");
    reveal_strlit("682");
    reveal_strlit("701");
    reveal_strlit("702");
    reveal_strlit("703");
    reveal_strlit("704");
    reveal_strlit("706");
    reveal_strlit("707");
    reveal_strlit("708");
    reveal_strlit("712");
    reveal_strlit("713");
    reveal_strlit("714");
    reveal_strlit("715");
    reveal_strlit("716");
    reveal_strlit("717");
    reveal_strlit("718");
    reveal_strlit("719");
    reveal_strlit("720");
    reveal_strlit("724");
    reveal_strlit("727");
    reveal_strlit("731");
    reveal_strlit("732");
    reveal_strlit("734");
    reveal_strlit("740");
    reveal_strlit("747");
    reveal_strlit("754");
    reveal_strlit("757");
    reveal_strlit("760");
    reveal_strlit("762");
    reveal_strlit("763");
    reveal_strlit("765");
    reveal_strlit("769");
    reveal_strlit("770");
    reveal_strlit("772");
    reveal_strlit("773");
    reveal_strlit("774");
    reveal_strlit("775");
    reveal_strlit("779");
    reveal_strlit("781");
    reveal_strlit("785");
    reveal_strlit("786");
    reveal_strlit("801");
    reveal_strlit("802");
    reveal_strlit("803");
    reveal_strlit("804");
    reveal_strlit("805");
    reveal_strlit("806");
    reveal_strlit("808");
    reveal_strlit("810");
    reveal_strlit("812");
    reveal_strlit("813");
    reveal_strlit("814");
    reveal_strlit("815");
    reveal_strlit("816");
    reveal_strlit("817");
    reveal_strlit("818");
    reveal_strlit("828");
    reveal_strlit("830");
    reveal_strlit("831");
    reveal_strlit("832");
    reveal_strlit("843");
    reveal_strlit("845");
    reveal_strlit("847");
    reveal_strlit("848");
    reveal_strlit("850");
    reveal_strlit("856");
    reveal_strlit("857");
    reveal_strlit("858");
    reveal_strlit("859");
    reveal_strlit("860");
    reveal_strlit("862");
    reveal_strlit("863");
    reveal_strlit("864");
    reveal_strlit("865");
    reveal_strlit("870");
    reveal_strlit("872");
    reveal_strlit("878");
    reveal_strlit("901");
    reveal_strlit("903");
    reveal_strlit("904");
    reveal_strlit("906");
    reveal_strlit("907");
    reveal_strlit("908");
    reveal_strlit("909");
    reveal_strlit("910");
    reveal_strlit("912");
    reveal_strlit("913");
    reveal_strlit("914");
    reveal_strlit("915");
    reveal_strlit("916");
    reveal_strlit("917");
    reveal_strlit("918");
    reveal_strlit("919");
    reveal_strlit("920");
    reveal_strlit("925");
    reveal_strlit("928");
    reveal_strlit("931");
    reveal_strlit("936");
    reveal_strlit("937");
    reveal_strlit("940");
    reveal_strlit("941");
    reveal_strlit("947");
    reveal_strlit("949");
    reveal_strlit("951");
    reveal_strlit("952");
    reveal_strlit("954");
    reveal_strlit("956");
    reveal_strlit("970");
    reveal_strlit("971");
    reveal_strlit("972");
    reveal_strlit("973");
    reveal_strlit("978");
    reveal_strlit("979");
    reveal_strlit("980");
    reveal_strlit("985");
    reveal_strlit("989");
}

/// The record of United States.
pub fn iso3166_us() -> (r: ISO3166)
    ensures
        r@ == rule_us(),
        r@.wf(),
{
    proof {
        lemma_rule_us_wf();
    }
    let r = ISO3166 {
        alpha2: "US",
        alpha3: "USA",
        country_code: "1",
        country_name: "United States",
        mobile_begin_with: vec!["201", "202", "203", "205", "206", "207", "208", "209", "210", "212", "213", "214", "215", "216", "217", "218", "219", "224", "225", "228", "229", "231", "234", "239", "240", "248", "251", "252", "253", "254", "256", "260", "262", "267", "269", "270", "272", "276", "281", "301", "302", "303", "304", "305", "307", "308", "309", "310", "312", "313", "314", "315", "316", "317", "318", "319", "320", "321", "323", "325", "330", "331", "334", "336", "337", "339", "347", "351", "352", "360", "361", "385", "386", "401", "402", "404", "405", "406", "407", "408", "409", "410", "412", "413", "414", "415", "417", "419", "423", "424", "425", "430", "432", "434", "435", "440", "442", "443", "469", "470", "475", "478", "479", "480", "484", "501", "502", "503", "504", "505", "507", "508", "509", "510", "512", "513", "515", "516", "517", "518", "520", "530", "540", "541", "551", "559", "561", "562", "563", "567", "570", "571", "573", "574", "575", "580", "585", "586", "601", "602", "603", "605", "606", "607", "608", "609", "610", "612", "614", "615", "616", "617", "618", "619", "620", "623", "626", "630", "631", "636", "641", "646", "650", "651", "657", "660", "661", "662", "667", "678", "682", "701", "702", "703", "704", "706", "707", "708", "712", "713", "714", "715", "716", "717", "718", "719", "720", "724", "727", "731", "732", "734", "740", "747", "754", "757", "760", "762", "763", "765", "769", "770", "772", "773", "774", "775", "779", "781", "785", "786", "801", "802", "803", "804", "805", "806", "808", "810", "812", "813", "814", "815", "816", "817", "818", "828", "830", "831", "832", "843", "845", "847", "848", "850", "856", "857", "858", "859", "860", "862", "863", "864", "865", "870", "872", "878", "901", "903", "904", "906", "907", "908", "909", "910", "912", "913", "914", "915", "916", "917", "918", "919", "920", "925", "928", "931", "936", "937", "940", "941", "947", "949", "951", "952", "954", "956", "970", "971", "972", "973", "978", "979", "980", "985", "989"],
        phone_number_lengths: vec![10],
    };
    assert(r@.mobile_begin_with =~= rule_us().mobile_begin_with);
    assert(r@.phone_number_lengths =~= rule_us().phone_number_lengths);
    r
}

/// Every rule of the directory, in the order in which lookups try them.
#[verifier::opaque]
pub open spec fn directory() -> Seq<CountryRule> {
    seq![
        rule_aq(),
        rule_au(),
        rule_ca(),
        rule_cn(),
        rule_ci(),
        rule_cg(),
        rule_de(),
        rule_es(),
        rule_fr(),
        rule_ga(),
        rule_gb(),
        rule_hk(),
        rule_in(),
        rule_it(),
        rule_jp(),
        rule_kr(),
        rule_ru(),
        rule_sg(),
        rule_us(),
    ]
}

/// Every rule of the directory is well formed.
pub proof fn lemma_directory_wf()
    ensures
        forall|i: int| 0 <= i < directory().len() ==> (#[trigger] directory()[i]).wf(),
{
    reveal(directory);
    lemma_rule_aq_wf();
    lemma_rule_au_wf();
    lemma_rule_ca_wf();
    lemma_rule_cn_wf();
    lemma_rule_ci_wf();
    lemma_rule_cg_wf();
    lemma_rule_de_wf();
    lemma_rule_es_wf();
    lemma_rule_fr_wf();
    lemma_rule_ga_wf();
    lemma_rule_gb_wf();
    lemma_rule_hk_wf();
    lemma_rule_in_wf();
    lemma_rule_it_wf();
    lemma_rule_jp_wf();
    lemma_rule_kr_wf();
    lemma_rule_ru_wf();
    lemma_rule_sg_wf();
    lemma_rule_us_wf();
}

/// The directory of rules, in lookup order.
pub fn iso3166s() -> (r: Vec<ISO3166>)
    ensures
        views(r@) == directory(),
{
    let mut r: Vec<ISO3166> = Vec::new();
    r.push(iso3166_aq());
    r.push(iso3166_au());
    r.push(iso3166_ca());
    r.push(iso3166_cn());
    r.push(iso3166_ci());
    r.push(iso3166_cg());
    r.push(iso3166_de());
    r.push(iso3166_es());
    r.push(iso3166_fr());
    r.push(iso3166_ga());
    r.push(iso3166_gb());
    r.push(iso3166_hk());
    r.push(iso3166_in());
    r.push(iso3166_it());
    r.push(iso3166_jp());
    r.push(iso3166_kr());
    r.push(iso3166_ru());
    r.push(iso3166_sg());
    r.push(iso3166_us());
    reveal(directory);
    assert(views(r@) =~= directory());
    r
}

} // verus!
