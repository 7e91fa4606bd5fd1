use crate::add_screen::{Address, AddressView};
use vstd::prelude::*;

verus! {

/// The four lines of a mailing label, top to bottom.
#[derive(Clone, Debug, PartialEq)]
pub struct Label {
    pub line_one: String,
    pub line_two: String,
    pub line_three: String,
    pub line_four: String,
}

/// What a `Label` holds, as plain mathematical values.
pub struct LabelView {
    pub line_one: Seq<char>,
    pub line_two: Seq<char>,
    pub line_three: Seq<char>,
    pub line_four: Seq<char>,
}

impl View for Label {
    type V = LabelView;

    open spec fn view(&self) -> LabelView {
        LabelView {
            line_one: self.line_one@,
            line_two: self.line_two@,
            line_three: self.line_three@,
            line_four: self.line_four@,
        }
    }
}

/// The name of the province whose addresses are written with the terms of
/// the capital.
pub open spec fn bangkok() -> Seq<char> {
    "กรุงเทพมหานคร"@
}

impl AddressView {
    /// Whether the selected province is the capital, by its name.
    pub open spec fn in_bangkok(self) -> bool {
        self.province.0 == Some(bangkok())
    }

    /// Recipient and name, run together.
    pub open spec fn line_one(self) -> Seq<char> {
        self.recipient + self.name
    }

    /// Sub-district and district, each behind the term that the province
    /// calls for; a part that is not selected is left out with its term.
    pub open spec fn line_three(self) -> Seq<char> {
        match (self.in_bangkok(), self.sub_district, self.district.0) {
            (true, Some(sub), Some(district)) => "แขวง"@ + sub + " เขต"@ + district,
            (true, Some(sub), None) => "แขวง"@ + sub,
            (true, None, Some(district)) => "เขต"@ + district,
            (false, Some(sub), Some(district)) => "ตำบล"@ + sub + " อำเภอ"@ + district,
            (false, Some(sub), None) => "ตำบล"@ + sub,
            (false, None, Some(district)) => "อำเภอ"@ + district,
            (_, None, None) => Seq::empty(),
        }
    }

    /// Province and postal code. The capital stands without a term; any other
    /// province stands behind one, under the name that was selected.
    pub open spec fn line_four(self) -> Seq<char> {
        if self.in_bangkok() {
            "กรุงเทพมหานคร "@ + self.postal_code
        } else {
            match self.province.0 {
                Some(province) => "จังหวัด"@ + province + " "@ + self.postal_code,
                None => Seq::empty(),
            }
        }
    }

    /// The label of the address.
    pub open spec fn label(self) -> LabelView {
        LabelView {
            line_one: self.line_one(),
            line_two: self.address,
            line_three: self.line_three(),
            line_four: self.line_four(),
        }
    }
}

/// Two texts run together.
fn join(a: &str, b: &str) -> (r: String)
    ensures
        r@ == a@ + b@,
{
    let mut r = String::from_str(a);
    r.append(b);
    r
}

/// A term before each of two parts, which a space holds apart: the second
/// term begins with it.
fn join_parts(first_term: &str, first: &str, second_term: &str, second: &str) -> (r: String)
    ensures
        r@ == first_term@ + first@ + second_term@ + second@,
{
    let mut r = join(first_term, first);
    r.append(second_term);
    r.append(second);
    r
}

impl Address {
    /// Whether the selected province is the capital, by its name.
    pub fn in_bangkok(&self) -> (r: bool)
        ensures
            r == self@.in_bangkok(),
    {
        match &self.province.0 {
            Some(name) => *name == String::from_str("กรุงเทพมหานคร"),
            None => false,
        }
    }

    fn line_three(&self, capital: bool) -> (r: String)
        requires
            capital == self@.in_bangkok(),
        ensures
            r@ == self@.line_three(),
    {
        match (&self.sub_district, &self.district.0) {
            (Some(sub), Some(district)) => {
                if capital {
                    join_parts("แขวง", sub.as_str(), " เขต", district.as_str())
                } else {
                    join_parts("ตำบล", sub.as_str(), " อำเภอ", district.as_str())
                }
            },
            (Some(sub), None) => {
                if capital {
                    join("แขวง", sub.as_str())
                } else {
                    join("ตำบล", sub.as_str())
                }
            },
            (None, Some(district)) => {
                if capital {
                    join("เขต", district.as_str())
                } else {
                    join("อำเภอ", district.as_str())
                }
            },
            (None, None) => String::new(),
        }
    }

    fn line_four(&self, capital: bool) -> (r: String)
        requires
            capital == self@.in_bangkok(),
        ensures
            r@ == self@.line_four(),
    {
        if capital {
            join("กรุงเทพมหานคร ", self.postal_code.as_str())
        } else {
            match &self.province.0 {
                Some(province) => join_parts(
                    "จังหวัด",
                    province.as_str(),
                    " ",
                    self.postal_code.as_str(),
                ),
                None => String::new(),
            }
        }
    }

    /// Writes the mailing label of the address. Whatever the address holds is
    /// written; what is missing is left out.
    pub fn label(&self) -> (r: Label)
        ensures
            r@ == self@.label(),
    {
        let capital = self.in_bangkok();
        Label {
            line_one: join(self.recipient.as_str(), self.name.as_str()),
            line_two: self.address.clone(),
            line_three: self.line_three(capital),
            line_four: self.line_four(capital),
        }
    }
}

} // verus!
