use vstd::prelude::*;
use crate::text::str_equal;

verus! {

/// The kinds of train that run on the network, in catalogue order.
#[derive(Clone, Copy, Debug, PartialEq, Eq, Structural)]
pub enum Train {
    AVE,
    EuroCity,
    Eurostar,
    Frecciarossa,
    IC,
    ICE,
    InterCity,
    Intercites,
    Italo,
    Nightjet,
    RE,
    RJX,
    Railjet,
    RegioExpress,
    TER,
    TGV,
    Thalys,
}

/// The display name of a kind of train.
pub open spec fn train_name(t: Train) -> Seq<char> {
    match t {
        Train::AVE => "AVE"@,
        Train::EuroCity => "EuroCity"@,
        Train::Eurostar => "Eurostar"@,
        Train::Frecciarossa => "Frecciarossa"@,
        Train::IC => "IC"@,
        Train::ICE => "ICE"@,
        Train::InterCity => "InterCity"@,
        Train::Intercites => "Intercités"@,
        Train::Italo => "Italo"@,
        Train::Nightjet => "Nightjet"@,
        Train::RE => "RE"@,
        Train::RJX => "RJX"@,
        Train::Railjet => "Railjet"@,
        Train::RegioExpress => "RegioExpress"@,
        Train::TER => "TER"@,
        Train::TGV => "TGV"@,
        Train::Thalys => "Thalys"@,
    }
}

/// Every kind of train once, in catalogue order.
pub open spec fn train_list() -> Seq<Train> {
    seq![
        Train::AVE,
        Train::EuroCity,
        Train::Eurostar,
        Train::Frecciarossa,
        Train::IC,
        Train::ICE,
        Train::InterCity,
        Train::Intercites,
        Train::Italo,
        Train::Nightjet,
        Train::RE,
        Train::RJX,
        Train::Railjet,
        Train::RegioExpress,
        Train::TER,
        Train::TGV,
        Train::Thalys,
    ]
}

impl Train {
    /// The display name of the train.
    pub fn as_str(&self) -> (s: &'static str)
        ensures
            s@ == train_name(*self),
    {
        match self {
            Train::AVE => "AVE",
            Train::EuroCity => "EuroCity",
            Train::Eurostar => "Eurostar",
            Train::Frecciarossa => "Frecciarossa",
            Train::IC => "IC",
            Train::ICE => "ICE",
            Train::InterCity => "InterCity",
            Train::Intercites => "Intercités",
            Train::Italo => "Italo",
            Train::Nightjet => "Nightjet",
            Train::RE => "RE",
            Train::RJX => "RJX",
            Train::Railjet => "Railjet",
            Train::RegioExpress => "RegioExpress",
            Train::TER => "TER",
            Train::TGV => "TGV",
            Train::Thalys => "Thalys",
        }
    }

    /// The kind of train whose display name is exactly `s`; the error message names `s` otherwise.
    pub fn from_str(s: &str) -> (r: Result<Train, String>)
        ensures
            match r {
                Ok(t) => train_name(t) == s@,
                Err(e) => (forall|t: Train| train_name(t) != s@) && e@ == "Unknown train type: "@ + s@,
            },
    {
        if str_equal(s, "AVE") {
            return Ok(Train::AVE);
        }
        if str_equal(s, "EuroCity") {
            return Ok(Train::EuroCity);
        }
        if str_equal(s, "Eurostar") {
            return Ok(Train::Eurostar);
        }
        if str_equal(s, "Frecciarossa") {
            return Ok(Train::Frecciarossa);
        }
        if str_equal(s, "IC") {
            return Ok(Train::IC);
        }
        if str_equal(s, "ICE") {
            return Ok(Train::ICE);
        }
        if str_equal(s, "InterCity") {
            return Ok(Train::InterCity);
        }
        if str_equal(s, "Intercités") {
            return Ok(Train::Intercites);
        }
        if str_equal(s, "Italo") {
            return Ok(Train::Italo);
        }
        if str_equal(s, "Nightjet") {
            return Ok(Train::Nightjet);
        }
        if str_equal(s, "RE") {
            return Ok(Train::RE);
        }
        if str_equal(s, "RJX") {
            return Ok(Train::RJX);
        }
        if str_equal(s, "Railjet") {
            return Ok(Train::Railjet);
        }
        if str_equal(s, "RegioExpress") {
            return Ok(Train::RegioExpress);
        }
        if str_equal(s, "TER") {
            return Ok(Train::TER);
        }
        if str_equal(s, "TGV") {
            return Ok(Train::TGV);
        }
        if str_equal(s, "Thalys") {
            return Ok(Train::Thalys);
        }
        let mut e = String::new();
        e.append("Unknown train type: ");
        e.append(s);
        Err(e)
    }
}

/// The kind of train whose display name is `s`, if there is one.
pub open spec fn train_named(s: Seq<char>) -> Option<Train> {
    if exists|t: Train| train_name(t) == s {
        Some(choose|t: Train| train_name(t) == s)
    } else {
        None
    }
}

/// The kind of train that a name belongs to is the one that `train_named` gives.
pub proof fn lemma_train_named(t: Train)
    ensures
        train_named(train_name(t)) == Some(t),
{
    let u = choose|u: Train| train_name(u) == train_name(t);
    lemma_train_name_injective(t, u);
}

/// Two kinds of train never share a display name, so parsing the display name of
/// a train gives that train back.
pub proof fn lemma_train_name_injective(a: Train, b: Train)
    requires
        train_name(a) == train_name(b),
    ensures
        a == b,
{
    reveal_strlit("AVE");
    reveal_strlit("EuroCity");
    reveal_strlit("Eurostar");
    reveal_strlit("Frecciarossa");
    reveal_strlit("IC");
    reveal_strlit("ICE");
    reveal_strlit("InterCity");
    reveal_strlit("Intercités");
    reveal_strlit("Italo");
    reveal_strlit("Nightjet");
    reveal_strlit("RE");
    reveal_strlit("RJX");
    reveal_strlit("Railjet");
    reveal_strlit("RegioExpress");
    reveal_strlit("TER");
    reveal_strlit("TGV");
    reveal_strlit("Thalys");
    assert("AVE"@ != "EuroCity"@) by {
        assert("AVE"@.len() != "EuroCity"@.len());
    }
    assert("AVE"@ != "Eurostar"@) by {
        assert("AVE"@.len() != "Eurostar"@.len());
    }
    assert("AVE"@ != "Frecciarossa"@) by {
        assert("AVE"@.len() != "Frecciarossa"@.len());
    }
    assert("AVE"@ != "IC"@) by {
        assert("AVE"@.len() != "IC"@.len());
    }
    assert("AVE"@ != "ICE"@) by {
        assert("AVE"@[0] != "ICE"@[0]);
    }
    assert("AVE"@ != "InterCity"@) by {
        assert("AVE"@.len() != "InterCity"@.len());
    }
    assert("AVE"@ != "Intercités"@) by {
        assert("AVE"@.len() != "Intercités"@.len());
    }
    assert("AVE"@ != "Italo"@) by {
        assert("AVE"@.len() != "Italo"@.len());
    }
    assert("AVE"@ != "Nightjet"@) by {
        assert("AVE"@.len() != "Nightjet"@.len());
    }
    assert("AVE"@ != "RE"@) by {
        assert("AVE"@.len() != "RE"@.len());
    }
    assert("AVE"@ != "RJX"@) by {
        assert("AVE"@[0] != "RJX"@[0]);
    }
    assert("AVE"@ != "Railjet"@) by {
        assert("AVE"@.len() != "Railjet"@.len());
    }
    assert("AVE"@ != "RegioExpress"@) by {
        assert("AVE"@.len() != "RegioExpress"@.len());
    }
    assert("AVE"@ != "TER"@) by {
        assert("AVE"@[0] != "TER"@[0]);
    }
    assert("AVE"@ != "TGV"@) by {
        assert("AVE"@[0] != "TGV"@[0]);
    }
    assert("AVE"@ != "Thalys"@) by {
        assert("AVE"@.len() != "Thalys"@.len());
    }
    assert("EuroCity"@ != "Eurostar"@) by {
        assert("EuroCity"@[4] != "Eurostar"@[4]);
    }
    assert("EuroCity"@ != "Frecciarossa"@) by {
        assert("EuroCity"@.len() != "Frecciarossa"@.len());
    }
    assert("EuroCity"@ != "IC"@) by {
        assert("EuroCity"@.len() != "IC"@.len());
    }
    assert("EuroCity"@ != "ICE"@) by {
        assert("EuroCity"@.len() != "ICE"@.len());
    }
    assert("EuroCity"@ != "InterCity"@) by {
        assert("EuroCity"@.len() != "InterCity"@.len());
    }
    assert("EuroCity"@ != "Intercités"@) by {
        assert("EuroCity"@.len() != "Intercités"@.len());
    }
    assert("EuroCity"@ != "Italo"@) by {
        assert("EuroCity"@.len() != "Italo"@.len());
    }
    assert("EuroCity"@ != "Nightjet"@) by {
        assert("EuroCity"@[0] != "Nightjet"@[0]);
    }
    assert("EuroCity"@ != "RE"@) by {
        assert("EuroCity"@.len() != "RE"@.len());
    }
    assert("EuroCity"@ != "RJX"@) by {
        assert("EuroCity"@.len() != "RJX"@.len());
    }
    assert("EuroCity"@ != "Railjet"@) by {
        assert("EuroCity"@.len() != "Railjet"@.len());
    }
    assert("EuroCity"@ != "RegioExpress"@) by {
        assert("EuroCity"@.len() != "RegioExpress"@.len());
    }
    assert("EuroCity"@ != "TER"@) by {
        assert("EuroCity"@.len() != "TER"@.len());
    }
    assert("EuroCity"@ != "TGV"@) by {
        assert("EuroCity"@.len() != "TGV"@.len());
    }
    assert("EuroCity"@ != "Thalys"@) by {
        assert("EuroCity"@.len() != "Thalys"@.len());
    }
    assert("Eurostar"@ != "Frecciarossa"@) by {
        assert("Eurostar"@.len() != "Frecciarossa"@.len());
    }
    assert("Eurostar"@ != "IC"@) by {
        assert("Eurostar"@.len() != "IC"@.len());
    }
    assert("Eurostar"@ != "ICE"@) by {
        assert("Eurostar"@.len() != "ICE"@.len());
    }
    assert("Eurostar"@ != "InterCity"@) by {
        assert("Eurostar"@.len() != "InterCity"@.len());
    }
    assert("Eurostar"@ != "Intercités"@) by {
        assert("Eurostar"@.len() != "Intercités"@.len());
    }
    assert("Eurostar"@ != "Italo"@) by {
        assert("Eurostar"@.len() != "Italo"@.len());
    }
    assert("Eurostar"@ != "Nightjet"@) by {
        assert("Eurostar"@[0] != "Nightjet"@[0]);
    }
    assert("Eurostar"@ != "RE"@) by {
        assert("Eurostar"@.len() != "RE"@.len());
    }
    assert("Eurostar"@ != "RJX"@) by {
        assert("Eurostar"@.len() != "RJX"@.len());
    }
    assert("Eurostar"@ != "Railjet"@) by {
        assert("Eurostar"@.len() != "Railjet"@.len());
    }
    assert("Eurostar"@ != "RegioExpress"@) by {
        assert("Eurostar"@.len() != "RegioExpress"@.len());
    }
    assert("Eurostar"@ != "TER"@) by {
        assert("Eurostar"@.len() != "TER"@.len());
    }
    assert("Eurostar"@ != "TGV"@) by {
        assert("Eurostar"@.len() != "TGV"@.len());
    }
    assert("Eurostar"@ != "Thalys"@) by {
        assert("Eurostar"@.len() != "Thalys"@.len());
    }
    assert("Frecciarossa"@ != "IC"@) by {
        assert("Frecciarossa"@.len() != "IC"@.len());
    }
    assert("Frecciarossa"@ != "ICE"@) by {
        assert("Frecciarossa"@.len() != "ICE"@.len());
    }
    assert("Frecciarossa"@ != "InterCity"@) by {
        assert("Frecciarossa"@.len() != "InterCity"@.len());
    }
    assert("Frecciarossa"@ != "Intercités"@) by {
        assert("Frecciarossa"@.len() != "Intercités"@.len());
    }
    assert("Frecciarossa"@ != "Italo"@) by {
        assert("Frecciarossa"@.len() != "Italo"@.len());
    }
    assert("Frecciarossa"@ != "Nightjet"@) by {
        assert("Frecciarossa"@.len() != "Nightjet"@.len());
    }
    assert("Frecciarossa"@ != "RE"@) by {
        assert("Frecciarossa"@.len() != "RE"@.len());
    }
    assert("Frecciarossa"@ != "RJX"@) by {
        assert("Frecciarossa"@.len() != "RJX"@.len());
    }
    assert("Frecciarossa"@ != "Railjet"@) by {
        assert("Frecciarossa"@.len() != "Railjet"@.len());
    }
    assert("Frecciarossa"@ != "RegioExpress"@) by {
        assert("Frecciarossa"@[0] != "RegioExpress"@[0]);
    }
    assert("Frecciarossa"@ != "TER"@) by {
        assert("Frecciarossa"@.len() != "TER"@.len());
    }
    assert("Frecciarossa"@ != "TGV"@) by {
        assert("Frecciarossa"@.len() != "TGV"@.len());
    }
    assert("Frecciarossa"@ != "Thalys"@) by {
        assert("Frecciarossa"@.len() != "Thalys"@.len());
    }
    assert("IC"@ != "ICE"@) by {
        assert("IC"@.len() != "ICE"@.len());
    }
    assert("IC"@ != "InterCity"@) by {
        assert("IC"@.len() != "InterCity"@.len());
    }
    assert("IC"@ != "Intercités"@) by {
        assert("IC"@.len() != "Intercités"@.len());
    }
    assert("IC"@ != "Italo"@) by {
        assert("IC"@.len() != "Italo"@.len());
    }
    assert("IC"@ != "Nightjet"@) by {
        assert("IC"@.len() != "Nightjet"@.len());
    }
    assert("IC"@ != "RE"@) by {
        assert("IC"@[0] != "RE"@[0]);
    }
    assert("IC"@ != "RJX"@) by {
        assert("IC"@.len() != "RJX"@.len());
    }
    assert("IC"@ != "Railjet"@) by {
        assert("IC"@.len() != "Railjet"@.len());
    }
    assert("IC"@ != "RegioExpress"@) by {
        assert("IC"@.len() != "RegioExpress"@.len());
    }
    assert("IC"@ != "TER"@) by {
        assert("IC"@.len() != "TER"@.len());
    }
    assert("IC"@ != "TGV"@) by {
        assert("IC"@.len() != "TGV"@.len());
    }
    assert("IC"@ != "Thalys"@) by {
        assert("IC"@.len() != "Thalys"@.len());
    }
    assert("ICE"@ != "InterCity"@) by {
        assert("ICE"@.len() != "InterCity"@.len());
    }
    assert("ICE"@ != "Intercités"@) by {
        assert("ICE"@.len() != "Intercités"@.len());
    }
    assert("ICE"@ != "Italo"@) by {
        assert("ICE"@.len() != "Italo"@.len());
    }
    assert("ICE"@ != "Nightjet"@) by {
        assert("ICE"@.len() != "Nightjet"@.len());
    }
    assert("ICE"@ != "RE"@) by {
        assert("ICE"@.len() != "RE"@.len());
    }
    assert("ICE"@ != "RJX"@) by {
        assert("ICE"@[0] != "RJX"@[0]);
    }
    assert("ICE"@ != "Railjet"@) by {
        assert("ICE"@.len() != "Railjet"@.len());
    }
    assert("ICE"@ != "RegioExpress"@) by {
        assert("ICE"@.len() != "RegioExpress"@.len());
    }
    assert("ICE"@ != "TER"@) by {
        assert("ICE"@[0] != "TER"@[0]);
    }
    assert("ICE"@ != "TGV"@) by {
        assert("ICE"@[0] != "TGV"@[0]);
    }
    assert("ICE"@ != "Thalys"@) by {
        assert("ICE"@.len() != "Thalys"@.len());
    }
    assert("InterCity"@ != "Intercités"@) by {
        assert("InterCity"@.len() != "Intercités"@.len());
    }
    assert("InterCity"@ != "Italo"@) by {
        assert("InterCity"@.len() != "Italo"@.len());
    }
    assert("InterCity"@ != "Nightjet"@) by {
        assert("InterCity"@.len() != "Nightjet"@.len());
    }
    assert("InterCity"@ != "RE"@) by {
        assert("InterCity"@.len() != "RE"@.len());
    }
    assert("InterCity"@ != "RJX"@) by {
        assert("InterCity"@.len() != "RJX"@.len());
    }
    assert("InterCity"@ != "Railjet"@) by {
        assert("InterCity"@.len() != "Railjet"@.len());
    }
    assert("InterCity"@ != "RegioExpress"@) by {
        assert("InterCity"@.len() != "RegioExpress"@.len());
    }
    assert("InterCity"@ != "TER"@) by {
        assert("InterCity"@.len() != "TER"@.len());
    }
    assert("InterCity"@ != "TGV"@) by {
        assert("InterCity"@.len() != "TGV"@.len());
    }
    assert("InterCity"@ != "Thalys"@) by {
        assert("InterCity"@.len() != "Thalys"@.len());
    }
    assert("Intercités"@ != "Italo"@) by {
        assert("Intercités"@.len() != "Italo"@.len());
    }
    assert("Intercités"@ != "Nightjet"@) by {
        assert("Intercités"@.len() != "Nightjet"@.len());
    }
    assert("Intercités"@ != "RE"@) by {
        assert("Intercités"@.len() != "RE"@.len());
    }
    assert("Intercités"@ != "RJX"@) by {
        assert("Intercités"@.len() != "RJX"@.len());
    }
    assert("Intercités"@ != "Railjet"@) by {
        assert("Intercités"@.len() != "Railjet"@.len());
    }
    assert("Intercités"@ != "RegioExpress"@) by {
        assert("Intercités"@.len() != "RegioExpress"@.len());
    }
    assert("Intercités"@ != "TER"@) by {
        assert("Intercités"@.len() != "TER"@.len());
    }
    assert("Intercités"@ != "TGV"@) by {
        assert("Intercités"@.len() != "TGV"@.len());
    }
    assert("Intercités"@ != "Thalys"@) by {
        assert("Intercités"@.len() != "Thalys"@.len());
    }
    assert("Italo"@ != "Nightjet"@) by {
        assert("Italo"@.len() != "Nightjet"@.len());
    }
    assert("Italo"@ != "RE"@) by {
        assert("Italo"@.len() != "RE"@.len());
    }
    assert("Italo"@ != "RJX"@) by {
        assert("Italo"@.len() != "RJX"@.len());
    }
    assert("Italo"@ != "Railjet"@) by {
        assert("Italo"@.len() != "Railjet"@.len());
    }
    assert("Italo"@ != "RegioExpress"@) by {
        assert("Italo"@.len() != "RegioExpress"@.len());
    }
    assert("Italo"@ != "TER"@) by {
        assert("Italo"@.len() != "TER"@.len());
    }
    assert("Italo"@ != "TGV"@) by {
        assert("Italo"@.len() != "TGV"@.len());
    }
    assert("Italo"@ != "Thalys"@) by {
        assert("Italo"@.len() != "Thalys"@.len());
    }
    assert("Nightjet"@ != "RE"@) by {
        assert("Nightjet"@.len() != "RE"@.len());
    }
    assert("Nightjet"@ != "RJX"@) by {
        assert("Nightjet"@.len() != "RJX"@.len());
    }
    assert("Nightjet"@ != "Railjet"@) by {
        assert("Nightjet"@.len() != "Railjet"@.len());
    }
    assert("Nightjet"@ != "RegioExpress"@) by {
        assert("Nightjet"@.len() != "RegioExpress"@.len());
    }
    assert("Nightjet"@ != "TER"@) by {
        assert("Nightjet"@.len() != "TER"@.len());
    }
    assert("Nightjet"@ != "TGV"@) by {
        assert("Nightjet"@.len() != "TGV"@.len());
    }
    assert("Nightjet"@ != "Thalys"@) by {
        assert("Nightjet"@.len() != "Thalys"@.len());
    }
    assert("RE"@ != "RJX"@) by {
        assert("RE"@.len() != "RJX"@.len());
    }
    assert("RE"@ != "Railjet"@) by {
        assert("RE"@.len() != "Railjet"@.len());
    }
    assert("RE"@ != "RegioExpress"@) by {
        assert("RE"@.len() != "RegioExpress"@.len());
    }
    assert("RE"@ != "TER"@) by {
        assert("RE"@.len() != "TER"@.len());
    }
    assert("RE"@ != "TGV"@) by {
        assert("RE"@.len() != "TGV"@.len());
    }
    assert("RE"@ != "Thalys"@) by {
        assert("RE"@.len() != "Thalys"@.len());
    }
    assert("RJX"@ != "Railjet"@) by {
        assert("RJX"@.len() != "Railjet"@.len());
    }
    assert("RJX"@ != "RegioExpress"@) by {
        assert("RJX"@.len() != "RegioExpress"@.len());
    }
    assert("RJX"@ != "TER"@) by {
        assert("RJX"@[0] != "TER"@[0]);
    }
    assert("RJX"@ != "TGV"@) by {
        assert("RJX"@[0] != "TGV"@[0]);
    }
    assert("RJX"@ != "Thalys"@) by {
        assert("RJX"@.len() != "Thalys"@.len());
    }
    assert("Railjet"@ != "RegioExpress"@) by {
        assert("Railjet"@.len() != "RegioExpress"@.len());
    }
    assert("Railjet"@ != "TER"@) by {
        assert("Railjet"@.len() != "TER"@.len());
    }
    assert("Railjet"@ != "TGV"@) by {
        assert("Railjet"@.len() != "TGV"@.len());
    }
    assert("Railjet"@ != "Thalys"@) by {
        assert("Railjet"@.len() != "Thalys"@.len());
    }
    assert("RegioExpress"@ != "TER"@) by {
        assert("RegioExpress"@.len() != "TER"@.len());
    }
    assert("RegioExpress"@ != "TGV"@) by {
        assert("RegioExpress"@.len() != "TGV"@.len());
    }
    assert("RegioExpress"@ != "Thalys"@) by {
        assert("RegioExpress"@.len() != "Thalys"@.len());
    }
    assert("TER"@ != "TGV"@) by {
        assert("TER"@[1] != "TGV"@[1]);
    }
    assert("TER"@ != "Thalys"@) by {
        assert("TER"@.len() != "Thalys"@.len());
    }
    assert("TGV"@ != "Thalys"@) by {
        assert("TGV"@.len() != "Thalys"@.len());
    }
}

/// The display names of all kinds of train, in catalogue order.
pub fn get_all_train_names() -> (r: Vec<&'static str>)
    ensures
        r@.len() == train_list().len(),
        forall|i: int| 0 <= i < r@.len() ==> (#[trigger] r@[i])@ == train_name(train_list()[i]),
        forall|t: Train| 0 <= #[trigger] train_index(t) < r@.len() && r@[train_index(t)]@ == train_name(t),
        forall|i: int, j: int| 0 <= i < j < r@.len() ==> (#[trigger] r@[i])@ != (#[trigger] r@[j])@,
{
    let all: Vec<Train> = vec![
        Train::AVE,
        Train::EuroCity,
        Train::Eurostar,
        Train::Frecciarossa,
        Train::IC,
        Train::ICE,
        Train::InterCity,
        Train::Intercites,
        Train::Italo,
        Train::Nightjet,
        Train::RE,
        Train::RJX,
        Train::Railjet,
        Train::RegioExpress,
        Train::TER,
        Train::TGV,
        Train::Thalys,
    ];
    assert(all@ =~= train_list());
    let mut r: Vec<&'static str> = Vec::new();
    for i in 0..all.len()
        invariant
            all@ == train_list(),
            r@.len() == i,
            forall|j: int| 0 <= j < i ==> (#[trigger] r@[j])@ == train_name(train_list()[j]),
    {
        r.push(all[i].as_str());
    }
    proof {
        lemma_train_names_listed(r@);
    }
    r
}

/// The days of the week, Monday first.
#[derive(Clone, Copy, Debug, PartialEq, Eq, Structural)]
pub enum Day {
    Monday,
    Tuesday,
    Wednesday,
    Thursday,
    Friday,
    Saturday,
    Sunday,
}

/// The full English name of a day.
pub open spec fn day_name(d: Day) -> Seq<char> {
    match d {
        Day::Monday => "Monday"@,
        Day::Tuesday => "Tuesday"@,
        Day::Wednesday => "Wednesday"@,
        Day::Thursday => "Thursday"@,
        Day::Friday => "Friday"@,
        Day::Saturday => "Saturday"@,
        Day::Sunday => "Sunday"@,
    }
}

/// The day that a text names: its full English name or its first three letters.
pub open spec fn day_from_text(s: Seq<char>) -> Option<Day> {
    if s == "Mon"@ || s == "Monday"@ {
        Some(Day::Monday)
    } else if s == "Tue"@ || s == "Tuesday"@ {
        Some(Day::Tuesday)
    } else if s == "Wed"@ || s == "Wednesday"@ {
        Some(Day::Wednesday)
    } else if s == "Thu"@ || s == "Thursday"@ {
        Some(Day::Thursday)
    } else if s == "Fri"@ || s == "Friday"@ {
        Some(Day::Friday)
    } else if s == "Sat"@ || s == "Saturday"@ {
        Some(Day::Saturday)
    } else if s == "Sun"@ || s == "Sunday"@ {
        Some(Day::Sunday)
    } else {
        None
    }
}

/// The seven days of the week, Monday first.
pub open spec fn week() -> Seq<Day> {
    seq![Day::Monday, Day::Tuesday, Day::Wednesday, Day::Thursday, Day::Friday, Day::Saturday, Day::Sunday]
}

impl Day {
    /// The full English name of the day.
    pub fn as_str(&self) -> (s: &'static str)
        ensures
            s@ == day_name(*self),
    {
        match self {
            Day::Monday => "Monday",
            Day::Tuesday => "Tuesday",
            Day::Wednesday => "Wednesday",
            Day::Thursday => "Thursday",
            Day::Friday => "Friday",
            Day::Saturday => "Saturday",
            Day::Sunday => "Sunday",
        }
    }

    /// All seven days, Monday first.
    pub fn daily() -> (r: Vec<Day>)
        ensures
            r@ == week(),
            forall|d: Day| 0 <= #[trigger] day_index(d) < r@.len() && r@[day_index(d)] == d,
            forall|i: int, j: int| 0 <= i < j < r@.len() ==> #[trigger] r@[i] != #[trigger] r@[j],
    {
        let r = vec![Day::Monday, Day::Tuesday, Day::Wednesday, Day::Thursday, Day::Friday, Day::Saturday, Day::Sunday];
        assert(r@ =~= week());
        proof {
            lemma_day_list_positions();
            assert forall|i: int, j: int| 0 <= i < j < r@.len() implies #[trigger] r@[i] != #[trigger] r@[j] by {
                assert(day_index(week()[i]) == i);
                assert(day_index(week()[j]) == j);
            }
        }
        r
    }

    /// The day that `s` names, by its full name or its first three letters;
    /// the error message names `s` otherwise.
    pub fn from_str(s: &str) -> (r: Result<Day, String>)
        ensures
            match r {
                Ok(d) => day_from_text(s@) == Some(d),
                Err(e) => day_from_text(s@) is None && e@ == "Unknown day: "@ + s@,
            },
    {
        if str_equal(s, "Mon") {
            return Ok(Day::Monday);
        }
        if str_equal(s, "Monday") {
            return Ok(Day::Monday);
        }
        if str_equal(s, "Tue") {
            return Ok(Day::Tuesday);
        }
        if str_equal(s, "Tuesday") {
            return Ok(Day::Tuesday);
        }
        if str_equal(s, "Wed") {
            return Ok(Day::Wednesday);
        }
        if str_equal(s, "Wednesday") {
            return Ok(Day::Wednesday);
        }
        if str_equal(s, "Thu") {
            return Ok(Day::Thursday);
        }
        if str_equal(s, "Thursday") {
            return Ok(Day::Thursday);
        }
        if str_equal(s, "Fri") {
            return Ok(Day::Friday);
        }
        if str_equal(s, "Friday") {
            return Ok(Day::Friday);
        }
        if str_equal(s, "Sat") {
            return Ok(Day::Saturday);
        }
        if str_equal(s, "Saturday") {
            return Ok(Day::Saturday);
        }
        if str_equal(s, "Sun") {
            return Ok(Day::Sunday);
        }
        if str_equal(s, "Sunday") {
            return Ok(Day::Sunday);
        }
        let mut e = String::new();
        e.append("Unknown day: ");
        e.append(s);
        Err(e)
    }
}

/// The first three letters of the full name of a day name that day too.
pub proof fn lemma_day_abbreviations(d: Day)
    ensures
        day_from_text(day_name(d).take(3)) == Some(d),
{
    reveal_strlit("Mon");
    reveal_strlit("Monday");
    reveal_strlit("Tue");
    reveal_strlit("Tuesday");
    reveal_strlit("Wed");
    reveal_strlit("Wednesday");
    reveal_strlit("Thu");
    reveal_strlit("Thursday");
    reveal_strlit("Fri");
    reveal_strlit("Friday");
    reveal_strlit("Sat");
    reveal_strlit("Saturday");
    reveal_strlit("Sun");
    reveal_strlit("Sunday");
    assert("Mon"@.len() == 3 && "Mon"@[0] == 'M' && "Mon"@[1] == 'o');
    assert("Monday"@.len() == 6 && "Monday"@[0] == 'M' && "Monday"@[1] == 'o');
    assert("Tue"@.len() == 3 && "Tue"@[0] == 'T' && "Tue"@[1] == 'u');
    assert("Tuesday"@.len() == 7 && "Tuesday"@[0] == 'T' && "Tuesday"@[1] == 'u');
    assert("Wed"@.len() == 3 && "Wed"@[0] == 'W' && "Wed"@[1] == 'e');
    assert("Wednesday"@.len() == 9 && "Wednesday"@[0] == 'W' && "Wednesday"@[1] == 'e');
    assert("Thu"@.len() == 3 && "Thu"@[0] == 'T' && "Thu"@[1] == 'h');
    assert("Thursday"@.len() == 8 && "Thursday"@[0] == 'T' && "Thursday"@[1] == 'h');
    assert("Fri"@.len() == 3 && "Fri"@[0] == 'F' && "Fri"@[1] == 'r');
    assert("Friday"@.len() == 6 && "Friday"@[0] == 'F' && "Friday"@[1] == 'r');
    assert("Sat"@.len() == 3 && "Sat"@[0] == 'S' && "Sat"@[1] == 'a');
    assert("Saturday"@.len() == 8 && "Saturday"@[0] == 'S' && "Saturday"@[1] == 'a');
    assert("Sun"@.len() == 3 && "Sun"@[0] == 'S' && "Sun"@[1] == 'u');
    assert("Sunday"@.len() == 6 && "Sunday"@[0] == 'S' && "Sunday"@[1] == 'u');
    match d {
        Day::Monday => assert(day_name(d).take(3) =~= "Mon"@),
        Day::Tuesday => assert(day_name(d).take(3) =~= "Tue"@),
        Day::Wednesday => assert(day_name(d).take(3) =~= "Wed"@),
        Day::Thursday => assert(day_name(d).take(3) =~= "Thu"@),
        Day::Friday => assert(day_name(d).take(3) =~= "Fri"@),
        Day::Saturday => assert(day_name(d).take(3) =~= "Sat"@),
        Day::Sunday => assert(day_name(d).take(3) =~= "Sun"@),
    }
}

/// Parsing the full name of a day gives that day back.
pub proof fn lemma_day_name_roundtrip(d: Day)
    ensures
        day_from_text(day_name(d)) == Some(d),
{
    reveal_strlit("Mon");
    reveal_strlit("Monday");
    reveal_strlit("Tue");
    reveal_strlit("Tuesday");
    reveal_strlit("Wed");
    reveal_strlit("Wednesday");
    reveal_strlit("Thu");
    reveal_strlit("Thursday");
    reveal_strlit("Fri");
    reveal_strlit("Friday");
    reveal_strlit("Sat");
    reveal_strlit("Saturday");
    reveal_strlit("Sun");
    reveal_strlit("Sunday");
    assert("Mon"@ != "Monday"@) by {
        assert("Mon"@.len() != "Monday"@.len());
    }
    assert("Mon"@ != "Tue"@) by {
        assert("Mon"@[0] != "Tue"@[0]);
    }
    assert("Mon"@ != "Tuesday"@) by {
        assert("Mon"@.len() != "Tuesday"@.len());
    }
    assert("Mon"@ != "Wed"@) by {
        assert("Mon"@[0] != "Wed"@[0]);
    }
    assert("Mon"@ != "Wednesday"@) by {
        assert("Mon"@.len() != "Wednesday"@.len());
    }
    assert("Mon"@ != "Thu"@) by {
        assert("Mon"@[0] != "Thu"@[0]);
    }
    assert("Mon"@ != "Thursday"@) by {
        assert("Mon"@.len() != "Thursday"@.len());
    }
    assert("Mon"@ != "Fri"@) by {
        assert("Mon"@[0] != "Fri"@[0]);
    }
    assert("Mon"@ != "Friday"@) by {
        assert("Mon"@.len() != "Friday"@.len());
    }
    assert("Mon"@ != "Sat"@) by {
        assert("Mon"@[0] != "Sat"@[0]);
    }
    assert("Mon"@ != "Saturday"@) by {
        assert("Mon"@.len() != "Saturday"@.len());
    }
    assert("Mon"@ != "Sun"@) by {
        assert("Mon"@[0] != "Sun"@[0]);
    }
    assert("Mon"@ != "Sunday"@) by {
        assert("Mon"@.len() != "Sunday"@.len());
    }
    assert("Monday"@ != "Tue"@) by {
        assert("Monday"@.len() != "Tue"@.len());
    }
    assert("Monday"@ != "Tuesday"@) by {
        assert("Monday"@.len() != "Tuesday"@.len());
    }
    assert("Monday"@ != "Wed"@) by {
        assert("Monday"@.len() != "Wed"@.len());
    }
    assert("Monday"@ != "Wednesday"@) by {
        assert("Monday"@.len() != "Wednesday"@.len());
    }
    assert("Monday"@ != "Thu"@) by {
        assert("Monday"@.len() != "Thu"@.len());
    }
    assert("Monday"@ != "Thursday"@) by {
        assert("Monday"@.len() != "Thursday"@.len());
    }
    assert("Monday"@ != "Fri"@) by {
        assert("Monday"@.len() != "Fri"@.len());
    }
    assert("Monday"@ != "Friday"@) by {
        assert("Monday"@[0] != "Friday"@[0]);
    }
    assert("Monday"@ != "Sat"@) by {
        assert("Monday"@.len() != "Sat"@.len());
    }
    assert("Monday"@ != "Saturday"@) by {
        assert("Monday"@.len() != "Saturday"@.len());
    }
    assert("Monday"@ != "Sun"@) by {
        assert("Monday"@.len() != "Sun"@.len());
    }
    assert("Monday"@ != "Sunday"@) by {
        assert("Monday"@[0] != "Sunday"@[0]);
    }
    assert("Tue"@ != "Tuesday"@) by {
        assert("Tue"@.len() != "Tuesday"@.len());
    }
    assert("Tue"@ != "Wed"@) by {
        assert("Tue"@[0] != "Wed"@[0]);
    }
    assert("Tue"@ != "Wednesday"@) by {
        assert("Tue"@.len() != "Wednesday"@.len());
    }
    assert("Tue"@ != "Thu"@) by {
        assert("Tue"@[1] != "Thu"@[1]);
    }
    assert("Tue"@ != "Thursday"@) by {
        assert("Tue"@.len() != "Thursday"@.len());
    }
    assert("Tue"@ != "Fri"@) by {
        assert("Tue"@[0] != "Fri"@[0]);
    }
    assert("Tue"@ != "Friday"@) by {
        assert("Tue"@.len() != "Friday"@.len());
    }
    assert("Tue"@ != "Sat"@) by {
        assert("Tue"@[0] != "Sat"@[0]);
    }
    assert("Tue"@ != "Saturday"@) by {
        assert("Tue"@.len() != "Saturday"@.len());
    }
    assert("Tue"@ != "Sun"@) by {
        assert("Tue"@[0] != "Sun"@[0]);
    }
    assert("Tue"@ != "Sunday"@) by {
        assert("Tue"@.len() != "Sunday"@.len());
    }
    assert("Tuesday"@ != "Wed"@) by {
        assert("Tuesday"@.len() != "Wed"@.len());
    }
    assert("Tuesday"@ != "Wednesday"@) by {
        assert("Tuesday"@.len() != "Wednesday"@.len());
    }
    assert("Tuesday"@ != "Thu"@) by {
        assert("Tuesday"@.len() != "Thu"@.len());
    }
    assert("Tuesday"@ != "Thursday"@) by {
        assert("Tuesday"@.len() != "Thursday"@.len());
    }
    assert("Tuesday"@ != "Fri"@) by {
        assert("Tuesday"@.len() != "Fri"@.len());
    }
    assert("Tuesday"@ != "Friday"@) by {
        assert("Tuesday"@.len() != "Friday"@.len());
    }
    assert("Tuesday"@ != "Sat"@) by {
        assert("Tuesday"@.len() != "Sat"@.len());
    }
    assert("Tuesday"@ != "Saturday"@) by {
        assert("Tuesday"@.len() != "Saturday"@.len());
    }
    assert("Tuesday"@ != "Sun"@) by {
        assert("Tuesday"@.len() != "Sun"@.len());
    }
    assert("Tuesday"@ != "Sunday"@) by {
        assert("Tuesday"@.len() != "Sunday"@.len());
    }
    assert("Wed"@ != "Wednesday"@) by {
        assert("Wed"@.len() != "Wednesday"@.len());
    }
    assert("Wed"@ != "Thu"@) by {
        assert("Wed"@[0] != "Thu"@[0]);
    }
    assert("Wed"@ != "Thursday"@) by {
        assert("Wed"@.len() != "Thursday"@.len());
    }
    assert("Wed"@ != "Fri"@) by {
        assert("Wed"@[0] != "Fri"@[0]);
    }
    assert("Wed"@ != "Friday"@) by {
        assert("Wed"@.len() != "Friday"@.len());
    }
    assert("Wed"@ != "Sat"@) by {
        assert("Wed"@[0] != "Sat"@[0]);
    }
    assert("Wed"@ != "Saturday"@) by {
        assert("Wed"@.len() != "Saturday"@.len());
    }
    assert("Wed"@ != "Sun"@) by {
        assert("Wed"@[0] != "Sun"@[0]);
    }
    assert("Wed"@ != "Sunday"@) by {
        assert("Wed"@.len() != "Sunday"@.len());
    }
    assert("Wednesday"@ != "Thu"@) by {
        assert("Wednesday"@.len() != "Thu"@.len());
    }
    assert("Wednesday"@ != "Thursday"@) by {
        assert("Wednesday"@.len() != "Thursday"@.len());
    }
    assert("Wednesday"@ != "Fri"@) by {
        assert("Wednesday"@.len() != "Fri"@.len());
    }
    assert("Wednesday"@ != "Friday"@) by {
        assert("Wednesday"@.len() != "Friday"@.len());
    }
    assert("Wednesday"@ != "Sat"@) by {
        assert("Wednesday"@.len() != "Sat"@.len());
    }
    assert("Wednesday"@ != "Saturday"@) by {
        assert("Wednesday"@.len() != "Saturday"@.len());
    }
    assert("Wednesday"@ != "Sun"@) by {
        assert("Wednesday"@.len() != "Sun"@.len());
    }
    assert("Wednesday"@ != "Sunday"@) by {
        assert("Wednesday"@.len() != "Sunday"@.len());
    }
    assert("Thu"@ != "Thursday"@) by {
        assert("Thu"@.len() != "Thursday"@.len());
    }
    assert("Thu"@ != "Fri"@) by {
        assert("Thu"@[0] != "Fri"@[0]);
    }
    assert("Thu"@ != "Friday"@) by {
        assert("Thu"@.len() != "Friday"@.len());
    }
    assert("Thu"@ != "Sat"@) by {
        assert("Thu"@[0] != "Sat"@[0]);
    }
    assert("Thu"@ != "Saturday"@) by {
        assert("Thu"@.len() != "Saturday"@.len());
    }
    assert("Thu"@ != "Sun"@) by {
        assert("Thu"@[0] != "Sun"@[0]);
    }
    assert("Thu"@ != "Sunday"@) by {
        assert("Thu"@.len() != "Sunday"@.len());
    }
    assert("Thursday"@ != "Fri"@) by {
        assert("Thursday"@.len() != "Fri"@.len());
    }
    assert("Thursday"@ != "Friday"@) by {
        assert("Thursday"@.len() != "Friday"@.len());
    }
    assert("Thursday"@ != "Sat"@) by {
        assert("Thursday"@.len() != "Sat"@.len());
    }
    assert("Thursday"@ != "Saturday"@) by {
        assert("Thursday"@[0] != "Saturday"@[0]);
    }
    assert("Thursday"@ != "Sun"@) by {
        assert("Thursday"@.len() != "Sun"@.len());
    }
    assert("Thursday"@ != "Sunday"@) by {
        assert("Thursday"@.len() != "Sunday"@.len());
    }
    assert("Fri"@ != "Friday"@) by {
        assert("Fri"@.len() != "Friday"@.len());
    }
    assert("Fri"@ != "Sat"@) by {
        assert("Fri"@[0] != "Sat"@[0]);
    }
    assert("Fri"@ != "Saturday"@) by {
        assert("Fri"@.len() != "Saturday"@.len());
    }
    assert("Fri"@ != "Sun"@) by {
        assert("Fri"@[0] != "Sun"@[0]);
    }
    assert("Fri"@ != "Sunday"@) by {
        assert("Fri"@.len() != "Sunday"@.len());
    }
    assert("Friday"@ != "Sat"@) by {
        assert("Friday"@.len() != "Sat"@.len());
    }
    assert("Friday"@ != "Saturday"@) by {
        assert("Friday"@.len() != "Saturday"@.len());
    }
    assert("Friday"@ != "Sun"@) by {
        assert("Friday"@.len() != "Sun"@.len());
    }
    assert("Friday"@ != "Sunday"@) by {
        assert("Friday"@[0] != "Sunday"@[0]);
    }
    assert("Sat"@ != "Saturday"@) by {
        assert("Sat"@.len() != "Saturday"@.len());
    }
    assert("Sat"@ != "Sun"@) by {
        assert("Sat"@[1] != "Sun"@[1]);
    }
    assert("Sat"@ != "Sunday"@) by {
        assert("Sat"@.len() != "Sunday"@.len());
    }
    assert("Saturday"@ != "Sun"@) by {
        assert("Saturday"@.len() != "Sun"@.len());
    }
    assert("Saturday"@ != "Sunday"@) by {
        assert("Saturday"@.len() != "Sunday"@.len());
    }
    assert("Sun"@ != "Sunday"@) by {
        assert("Sun"@.len() != "Sunday"@.len());
    }
}

/// The position of a kind of train in its list.
pub open spec fn train_index(c: Train) -> int {
    match c {
        Train::AVE => 0,
        Train::EuroCity => 1,
        Train::Eurostar => 2,
        Train::Frecciarossa => 3,
        Train::IC => 4,
        Train::ICE => 5,
        Train::InterCity => 6,
        Train::Intercites => 7,
        Train::Italo => 8,
        Train::Nightjet => 9,
        Train::RE => 10,
        Train::RJX => 11,
        Train::Railjet => 12,
        Train::RegioExpress => 13,
        Train::TER => 14,
        Train::TGV => 15,
        Train::Thalys => 16,
    }
}

#[verifier::spinoff_prover]
proof fn lemma_train_position_0(i: int)
    requires
        0 <= i < 17,
    ensures
        train_index(train_list()[i]) == i,
{
    assert(train_list()[0] == Train::AVE);
    assert(train_list()[1] == Train::EuroCity);
    assert(train_list()[2] == Train::Eurostar);
    assert(train_list()[3] == Train::Frecciarossa);
    assert(train_list()[4] == Train::IC);
    assert(train_list()[5] == Train::ICE);
    assert(train_list()[6] == Train::InterCity);
    assert(train_list()[7] == Train::Intercites);
    assert(train_list()[8] == Train::Italo);
    assert(train_list()[9] == Train::Nightjet);
    assert(train_list()[10] == Train::RE);
    assert(train_list()[11] == Train::RJX);
    assert(train_list()[12] == Train::Railjet);
    assert(train_list()[13] == Train::RegioExpress);
    assert(train_list()[14] == Train::TER);
    assert(train_list()[15] == Train::TGV);
    assert(train_list()[16] == Train::Thalys);
    assert(i == 0 || i == 1 || i == 2 || i == 3 || i == 4 || i == 5 || i == 6 || i == 7 || i == 8 || i == 9 || i == 10 || i == 11 || i == 12 || i == 13 || i == 14 || i == 15 || i == 16);
}

/// The list holds each a kind of train at its position.
proof fn lemma_train_list_positions()
    ensures
        train_list().len() == 17,
        forall|i: int| 0 <= i < 17 ==> train_index(#[trigger] train_list()[i]) == i,
        forall|c: Train| 0 <= #[trigger] train_index(c) < 17 && train_list()[train_index(c)] == c,
{
    assert forall|i: int| 0 <= i < 17 implies train_index(#[trigger] train_list()[i]) == i by {
        lemma_train_position_0(i);
    }
    assert forall|c: Train| 0 <= #[trigger] train_index(c) < 17 && train_list()[train_index(c)] == c by {
        lemma_train_listed(c);
    }
}

#[verifier::spinoff_prover]
proof fn lemma_train_listed(c: Train)
    ensures
        0 <= train_index(c) < 17,
        train_list()[train_index(c)] == c,
{
    match c {
        Train::AVE => { assert(train_list()[0] == Train::AVE); },
        Train::EuroCity => { assert(train_list()[1] == Train::EuroCity); },
        Train::Eurostar => { assert(train_list()[2] == Train::Eurostar); },
        Train::Frecciarossa => { assert(train_list()[3] == Train::Frecciarossa); },
        Train::IC => { assert(train_list()[4] == Train::IC); },
        Train::ICE => { assert(train_list()[5] == Train::ICE); },
        Train::InterCity => { assert(train_list()[6] == Train::InterCity); },
        Train::Intercites => { assert(train_list()[7] == Train::Intercites); },
        Train::Italo => { assert(train_list()[8] == Train::Italo); },
        Train::Nightjet => { assert(train_list()[9] == Train::Nightjet); },
        Train::RE => { assert(train_list()[10] == Train::RE); },
        Train::RJX => { assert(train_list()[11] == Train::RJX); },
        Train::Railjet => { assert(train_list()[12] == Train::Railjet); },
        Train::RegioExpress => { assert(train_list()[13] == Train::RegioExpress); },
        Train::TER => { assert(train_list()[14] == Train::TER); },
        Train::TGV => { assert(train_list()[15] == Train::TGV); },
        Train::Thalys => { assert(train_list()[16] == Train::Thalys); },
    }
}

/// A list of the names of the kinds of train, in list order, names every
/// kind exactly once.
proof fn lemma_train_names_listed(r: Seq<&'static str>)
    requires
        r.len() == train_list().len(),
        forall|i: int| 0 <= i < r.len() ==> (#[trigger] r[i])@ == train_name(train_list()[i]),
    ensures
        forall|t: Train| 0 <= #[trigger] train_index(t) < r.len() && r[train_index(t)]@ == train_name(t),
        forall|i: int, j: int| 0 <= i < j < r.len() ==> (#[trigger] r[i])@ != (#[trigger] r[j])@,
{
    lemma_train_list_positions();
    assert forall|t: Train| 0 <= #[trigger] train_index(t) < r.len() && r[train_index(t)]@ == train_name(t) by {
        let k = train_index(t);
        assert(r[k]@ == train_name(train_list()[k]));
    }
    assert forall|i: int, j: int| 0 <= i < j < r.len() implies (#[trigger] r[i])@ != (#[trigger] r[j])@ by {
        if r[i]@ == r[j]@ {
            assert(r[i]@ == train_name(train_list()[i]));
            assert(r[j]@ == train_name(train_list()[j]));
            lemma_train_name_injective(train_list()[i], train_list()[j]);
            assert(train_index(train_list()[i]) == i);
            assert(train_index(train_list()[j]) == j);
        }
    }
}

/// The position of a day of the week in its list.
pub open spec fn day_index(c: Day) -> int {
    match c {
        Day::Monday => 0,
        Day::Tuesday => 1,
        Day::Wednesday => 2,
        Day::Thursday => 3,
        Day::Friday => 4,
        Day::Saturday => 5,
        Day::Sunday => 6,
    }
}

#[verifier::spinoff_prover]
proof fn lemma_day_position_0(i: int)
    requires
        0 <= i < 7,
    ensures
        day_index(week()[i]) == i,
{
    assert(week()[0] == Day::Monday);
    assert(week()[1] == Day::Tuesday);
    assert(week()[2] == Day::Wednesday);
    assert(week()[3] == Day::Thursday);
    assert(week()[4] == Day::Friday);
    assert(week()[5] == Day::Saturday);
    assert(week()[6] == Day::Sunday);
    assert(i == 0 || i == 1 || i == 2 || i == 3 || i == 4 || i == 5 || i == 6);
}

/// The list holds each a day of the week at its position.
proof fn lemma_day_list_positions()
    ensures
        week().len() == 7,
        forall|i: int| 0 <= i < 7 ==> day_index(#[trigger] week()[i]) == i,
        forall|c: Day| 0 <= #[trigger] day_index(c) < 7 && week()[day_index(c)] == c,
{
    assert forall|i: int| 0 <= i < 7 implies day_index(#[trigger] week()[i]) == i by {
        lemma_day_position_0(i);
    }
    assert forall|c: Day| 0 <= #[trigger] day_index(c) < 7 && week()[day_index(c)] == c by {
        lemma_day_listed(c);
    }
}

#[verifier::spinoff_prover]
proof fn lemma_day_listed(c: Day)
    ensures
        0 <= day_index(c) < 7,
        week()[day_index(c)] == c,
{
    match c {
        Day::Monday => { assert(week()[0] == Day::Monday); },
        Day::Tuesday => { assert(week()[1] == Day::Tuesday); },
        Day::Wednesday => { assert(week()[2] == Day::Wednesday); },
        Day::Thursday => { assert(week()[3] == Day::Thursday); },
        Day::Friday => { assert(week()[4] == Day::Friday); },
        Day::Saturday => { assert(week()[5] == Day::Saturday); },
        Day::Sunday => { assert(week()[6] == Day::Sunday); },
    }
}

} // verus!
