use crate::geo_data::{find_province, names_of_provinces};
use crate::geo_data::{province_named, province_names, province_views};
use crate::geo_data::{District, DistrictView, Province, ProvinceView};
use crate::label::Label;
use crate::text::{decimal, decimal_string, decimal_value, is_digit, is_substring};
use crate::text::{embeds, keeps_order, matching, matching_names, opt_text, texts};
use crate::text::{lemma_decimal_reads_back, lemma_keeps_own_order};
use crate::text::{lemma_matching_empty_filter, lemma_matching_keeps_order};
use crate::text::lemma_matching_sound_and_complete;
use vstd::prelude::*;

verus! {

/// The options that one selector offers, in display order, and the filter
/// text that they were computed for (`None` while nothing was typed).
#[derive(Debug)]
pub struct Candidates {
    pub options: Vec<String>,
    pub filter: Option<String>,
}

/// What `Candidates` holds, as plain mathematical values.
pub struct CandidatesView {
    pub options: Seq<Seq<char>>,
    pub filter: Option<Seq<char>>,
}

impl View for Candidates {
    type V = CandidatesView;

    open spec fn view(&self) -> CandidatesView {
        CandidatesView { options: texts(self.options@), filter: opt_text(self.filter) }
    }
}

impl CandidatesView {
    /// A selector that offers nothing and has no filter text.
    pub open spec fn empty() -> CandidatesView {
        CandidatesView { options: Seq::empty(), filter: None }
    }
}

/// The address that is being composed. A selection holds the name that was
/// picked and the catalog record that the name resolved to, the empty record
/// where it resolved to none.
pub struct Address {
    pub name: String,
    pub recipient: String,
    pub address: String,
    pub province: (Option<String>, Province),
    pub district: (Option<String>, District),
    pub sub_district: Option<String>,
    pub postal_code: String,
}

/// What an `Address` holds, as plain mathematical values.
pub struct AddressView {
    pub name: Seq<char>,
    pub recipient: Seq<char>,
    pub address: Seq<char>,
    pub province: (Option<Seq<char>>, ProvinceView),
    pub district: (Option<Seq<char>>, DistrictView),
    pub sub_district: Option<Seq<char>>,
    pub postal_code: Seq<char>,
}

impl View for Address {
    type V = AddressView;

    open spec fn view(&self) -> AddressView {
        AddressView {
            name: self.name@,
            recipient: self.recipient@,
            address: self.address@,
            province: (opt_text(self.province.0), self.province.1@),
            district: (opt_text(self.district.0), self.district.1@),
            sub_district: opt_text(self.sub_district),
            postal_code: self.postal_code@,
        }
    }
}

impl AddressView {
    /// The address in which nothing was typed and nothing was selected.
    pub open spec fn empty() -> AddressView {
        AddressView {
            name: Seq::empty(),
            recipient: Seq::empty(),
            address: Seq::empty(),
            province: (None, ProvinceView::empty()),
            district: (None, DistrictView::empty()),
            sub_district: None,
            postal_code: Seq::empty(),
        }
    }
}

/// What the user can do on the screen.
#[derive(Debug, Clone, PartialEq)]
pub enum Message {
    GotoHome,
    OnNameInput(String),
    OnRecipientInput(String),
    OnAddressInput(String),
    OnProvinceSelect(String),
    OnProvinceInput(String),
    OnDistrictSelect(String),
    OnDistrictInput(String),
    OnSubDistrictSelect(String),
    OnSubDistrictInput(String),
}

/// What a `Message` holds, as plain mathematical values.
pub enum MessageView {
    GotoHome,
    OnNameInput(Seq<char>),
    OnRecipientInput(Seq<char>),
    OnAddressInput(Seq<char>),
    OnProvinceSelect(Seq<char>),
    OnProvinceInput(Seq<char>),
    OnDistrictSelect(Seq<char>),
    OnDistrictInput(Seq<char>),
    OnSubDistrictSelect(Seq<char>),
    OnSubDistrictInput(Seq<char>),
}

impl View for Message {
    type V = MessageView;

    open spec fn view(&self) -> MessageView {
        match *self {
            Message::GotoHome => MessageView::GotoHome,
            Message::OnNameInput(s) => MessageView::OnNameInput(s@),
            Message::OnRecipientInput(s) => MessageView::OnRecipientInput(s@),
            Message::OnAddressInput(s) => MessageView::OnAddressInput(s@),
            Message::OnProvinceSelect(s) => MessageView::OnProvinceSelect(s@),
            Message::OnProvinceInput(s) => MessageView::OnProvinceInput(s@),
            Message::OnDistrictSelect(s) => MessageView::OnDistrictSelect(s@),
            Message::OnDistrictInput(s) => MessageView::OnDistrictInput(s@),
            Message::OnSubDistrictSelect(s) => MessageView::OnSubDistrictSelect(s@),
            Message::OnSubDistrictInput(s) => MessageView::OnSubDistrictInput(s@),
        }
    }
}

/// One of the three selectors of the screen.
#[derive(Clone, Copy, Debug, PartialEq, Eq, Structural)]
pub enum Selector {
    Provinces,
    Districts,
    SubDistricts,
}

impl MessageView {
    /// The selector whose options the message computes anew, if it computes
    /// any: typing into a selector refills that selector, and selecting a
    /// province refills the districts.
    pub open spec fn refills(self) -> Option<Selector> {
        match self {
            MessageView::OnProvinceInput(_) => Some(Selector::Provinces),
            MessageView::OnProvinceSelect(_) => Some(Selector::Districts),
            MessageView::OnDistrictInput(_) => Some(Selector::Districts),
            MessageView::OnSubDistrictInput(_) => Some(Selector::SubDistricts),
            _ => None,
        }
    }
}

impl Message {
    /// The selector whose options the message computes anew, if it computes
    /// any.
    pub fn refills(&self) -> (r: Option<Selector>)
        ensures
            r == self@.refills(),
    {
        match self {
            Message::OnProvinceInput(_) => Some(Selector::Provinces),
            Message::OnProvinceSelect(_) => Some(Selector::Districts),
            Message::OnDistrictInput(_) => Some(Selector::Districts),
            Message::OnSubDistrictInput(_) => Some(Selector::SubDistricts),
            _ => None,
        }
    }
}

/// The screen on which an address is composed: the address and the options
/// that the three selectors offer.
pub struct State {
    pub address: Address,
    pub provinces: Candidates,
    pub districts: Candidates,
    pub sub_districts: Candidates,
}

/// What a `State` holds, as plain mathematical values.
pub struct StateModel {
    pub address: AddressView,
    pub provinces: CandidatesView,
    pub districts: CandidatesView,
    pub sub_districts: CandidatesView,
}

impl StateModel {
    /// What a selector offers.
    pub open spec fn offered(self, selector: Selector) -> CandidatesView {
        match selector {
            Selector::Provinces => self.provinces,
            Selector::Districts => self.districts,
            Selector::SubDistricts => self.sub_districts,
        }
    }

    /// The screen as it is entered: an empty address, every province of the
    /// catalog on offer, in catalog order, and no district and no
    /// sub-district on offer while nothing is selected above them.
    pub open spec fn initial(catalog: Seq<ProvinceView>) -> StateModel {
        StateModel {
            address: AddressView::empty(),
            provinces: CandidatesView { options: province_names(catalog), filter: None },
            districts: CandidatesView::empty(),
            sub_districts: CandidatesView::empty(),
        }
    }

    /// Selecting a province resolves the name in the catalog, clears the
    /// district, the sub-district and the postal code, and offers all the
    /// districts of the province.
    pub open spec fn select_province(
        self,
        catalog: Seq<ProvinceView>,
        name: Seq<char>,
    ) -> StateModel {
        let province = province_named(catalog, name);
        StateModel {
            address: AddressView {
                province: (Some(name), province),
                district: (None, DistrictView::empty()),
                sub_district: None,
                postal_code: Seq::empty(),
                ..self.address
            },
            districts: CandidatesView { options: province.district_names(), filter: None },
            ..self
        }
    }

    /// Typing in the province selector offers the catalog's province names
    /// that contain the text. The address stays as it is.
    pub open spec fn filter_provinces(
        self,
        catalog: Seq<ProvinceView>,
        filter: Seq<char>,
    ) -> StateModel {
        StateModel {
            provinces: CandidatesView {
                options: matching(province_names(catalog), filter),
                filter: Some(filter),
            },
            ..self
        }
    }

    /// Selecting a district resolves the name among the districts of the
    /// selected province and sets the postal code: the district's code in
    /// decimal, or the empty text where the name resolved to no district.
    pub open spec fn select_district(self, name: Seq<char>) -> StateModel {
        let found = self.address.province.1.district_named(name);
        StateModel {
            address: AddressView {
                district: (
                    Some(name),
                    match found {
                        Some(d) => d,
                        None => DistrictView::empty(),
                    },
                ),
                postal_code: match found {
                    Some(d) => decimal(d.postal_code as nat),
                    None => Seq::empty(),
                },
                ..self.address
            },
            ..self
        }
    }

    /// Typing in the district selector offers the district names of the
    /// selected province that contain the text.
    pub open spec fn filter_districts(self, filter: Seq<char>) -> StateModel {
        StateModel {
            districts: CandidatesView {
                options: matching(self.address.province.1.district_names(), filter),
                filter: Some(filter),
            },
            ..self
        }
    }

    /// Selecting a sub-district takes the name as it is.
    pub open spec fn select_sub_district(self, name: Seq<char>) -> StateModel {
        StateModel { address: AddressView { sub_district: Some(name), ..self.address }, ..self }
    }

    /// Typing in the sub-district selector offers the sub-districts of the
    /// selected district that contain the text.
    pub open spec fn filter_sub_districts(self, filter: Seq<char>) -> StateModel {
        StateModel {
            sub_districts: CandidatesView {
                options: matching(self.address.district.1.sub_districts, filter),
                filter: Some(filter),
            },
            ..self
        }
    }

    /// The screen after one message.
    pub open spec fn step(self, catalog: Seq<ProvinceView>, message: MessageView) -> StateModel {
        match message {
            MessageView::GotoHome => self,
            MessageView::OnNameInput(s) => StateModel {
                address: AddressView { name: s, ..self.address },
                ..self
            },
            MessageView::OnRecipientInput(s) => StateModel {
                address: AddressView { recipient: s, ..self.address },
                ..self
            },
            MessageView::OnAddressInput(s) => StateModel {
                address: AddressView { address: s, ..self.address },
                ..self
            },
            MessageView::OnProvinceSelect(s) => self.select_province(catalog, s),
            MessageView::OnProvinceInput(s) => self.filter_provinces(catalog, s),
            MessageView::OnDistrictSelect(s) => self.select_district(s),
            MessageView::OnDistrictInput(s) => self.filter_districts(s),
            MessageView::OnSubDistrictSelect(s) => self.select_sub_district(s),
            MessageView::OnSubDistrictInput(s) => self.filter_sub_districts(s),
        }
    }
}

impl Default for Address {
    fn default() -> (r: Address)
        ensures
            r@ == AddressView::empty(),
    {
        Address {
            name: String::new(),
            recipient: String::new(),
            address: String::new(),
            province: (None, Province::default()),
            district: (None, District::default()),
            sub_district: None,
            postal_code: String::new(),
        }
    }
}

impl Clone for Address {
    fn clone(&self) -> (r: Address)
        ensures
            r@ == self@,
    {
        Address {
            name: self.name.clone(),
            recipient: self.recipient.clone(),
            address: self.address.clone(),
            province: (self.province.0.clone(), self.province.1.clone()),
            district: (self.district.0.clone(), self.district.1.clone()),
            sub_district: self.sub_district.clone(),
            postal_code: self.postal_code.clone(),
        }
    }
}

impl Default for Candidates {
    fn default() -> (r: Candidates)
        ensures
            r@ == CandidatesView::empty(),
    {
        let r = Candidates { options: Vec::new(), filter: None };
        assert(texts(r.options@) =~= Seq::<Seq<char>>::empty());
        r
    }
}

impl Clone for Candidates {
    fn clone(&self) -> (r: Candidates)
        ensures
            r@ == self@,
    {
        let r = Candidates { options: self.options.clone(), filter: self.filter.clone() };
        assert(texts(r.options@) =~= texts(self.options@));
        r
    }
}

impl Clone for State {
    fn clone(&self) -> (r: State)
        ensures
            r.model() == self.model(),
    {
        State {
            address: self.address.clone(),
            provinces: self.provinces.clone(),
            districts: self.districts.clone(),
            sub_districts: self.sub_districts.clone(),
        }
    }
}

impl Default for State {
    /// The screen as it is entered where the catalog holds no province.
    fn default() -> (r: State)
        ensures
            r.model() == StateModel::initial(Seq::<ProvinceView>::empty()),
    {
        let r = State {
            address: Address::default(),
            provinces: Candidates::default(),
            districts: Candidates::default(),
            sub_districts: Candidates::default(),
        };
        assert(province_names(Seq::<ProvinceView>::empty()) =~= Seq::<Seq<char>>::empty());
        r
    }
}

impl State {
    /// The screen as plain mathematical values.
    pub open spec fn model(&self) -> StateModel {
        StateModel {
            address: self.address@,
            provinces: self.provinces@,
            districts: self.districts@,
            sub_districts: self.sub_districts@,
        }
    }

    /// The screen as it is entered, over this catalog.
    pub fn new(catalog: &Vec<Province>) -> (r: State)
        ensures
            r.model() == StateModel::initial(province_views(catalog@)),
    {
        State {
            address: Address::default(),
            provinces: Candidates { options: names_of_provinces(catalog), filter: None },
            districts: Candidates::default(),
            sub_districts: Candidates::default(),
        }
    }

    /// Selects the province of this name.
    pub fn select_province(&mut self, catalog: &Vec<Province>, select: String)
        ensures
            final(self).model() == old(self).model().select_province(
                province_views(catalog@),
                select@,
            ),
    {
        let province = match find_province(catalog, select.as_str()) {
            Some(i) => catalog[i].clone(),
            None => Province::default(),
        };
        self.districts = Candidates { options: province.district_names(), filter: None };
        self.address.province = (Some(select), province);
        self.address.district = (None, District::default());
        self.address.sub_district = None;
        self.address.postal_code = String::new();
    }

    /// Offers the provinces whose names contain `filter`.
    pub fn filter_provinces(&mut self, catalog: &Vec<Province>, filter: String)
        ensures
            final(self).model() == old(self).model().filter_provinces(
                province_views(catalog@),
                filter@,
            ),
    {
        let names = names_of_provinces(catalog);
        let options = matching_names(&names, filter.as_str());
        self.provinces = Candidates { options, filter: Some(filter) };
    }

    /// Selects the district of this name in the selected province.
    pub fn select_district(&mut self, select: String)
        ensures
            final(self).model() == old(self).model().select_district(select@),
    {
        match self.address.province.1.find_district(select.as_str()) {
            Some(i) => {
                let district = self.address.province.1.districts[i].clone();
                self.address.postal_code = decimal_string(district.postal_code);
                self.address.district = (Some(select), district);
            },
            None => {
                self.address.postal_code = String::new();
                self.address.district = (Some(select), District::default());
            },
        }
    }

    /// Offers the districts of the selected province whose names contain
    /// `filter`.
    pub fn filter_districts(&mut self, filter: String)
        ensures
            final(self).model() == old(self).model().filter_districts(filter@),
    {
        let names = self.address.province.1.district_names();
        let options = matching_names(&names, filter.as_str());
        self.districts = Candidates { options, filter: Some(filter) };
    }

    /// Selects the sub-district of this name.
    pub fn select_sub_district(&mut self, select: String)
        ensures
            final(self).model() == old(self).model().select_sub_district(select@),
    {
        self.address.sub_district = Some(select);
    }

    /// Offers the sub-districts of the selected district whose names contain
    /// `filter`.
    pub fn filter_sub_districts(&mut self, filter: String)
        ensures
            final(self).model() == old(self).model().filter_sub_districts(filter@),
    {
        let options = matching_names(&self.address.district.1.sub_districts, filter.as_str());
        self.sub_districts = Candidates { options, filter: Some(filter) };
    }

    /// What the screen shows of the address: its mailing label.
    pub fn view(&self) -> (r: Label)
        ensures
            r@ == self.model().address.label(),
    {
        self.address.label()
    }

    /// Takes one message: changes the screen as `StateModel::step` says, and
    /// hands back the message for the application where there is one, which
    /// is when the user asked to go home.
    pub fn update(
        &mut self,
        catalog: &Vec<Province>,
        message: Message,
    ) -> (r: Option<crate::Message>)
        ensures
            final(self).model() == old(self).model().step(province_views(catalog@), message@),
            message is GotoHome ==> r == Some(crate::Message::GotoHome),
            !(message is GotoHome) ==> r is None,
    {
        match message {
            Message::GotoHome => {
                return Some(crate::Message::GotoHome);
            },
            Message::OnNameInput(name) => self.address.name = name,
            Message::OnRecipientInput(recipient) => self.address.recipient = recipient,
            Message::OnAddressInput(address) => self.address.address = address,
            Message::OnProvinceSelect(select) => self.select_province(catalog, select),
            Message::OnProvinceInput(filter) => self.filter_provinces(catalog, filter),
            Message::OnDistrictSelect(select) => self.select_district(select),
            Message::OnDistrictInput(filter) => self.filter_districts(filter),
            Message::OnSubDistrictSelect(select) => self.select_sub_district(select),
            Message::OnSubDistrictInput(filter) => self.filter_sub_districts(filter),
        }
        None
    }
}

/// Whether the message is text typed into one of the three selectors.
pub open spec fn is_filter_input(message: MessageView) -> bool {
    message is OnProvinceInput || message is OnDistrictInput || message is OnSubDistrictInput
}

impl StateModel {
    /// The screen after a run of messages, taken in order.
    pub open spec fn run(
        self,
        catalog: Seq<ProvinceView>,
        messages: Seq<MessageView>,
    ) -> StateModel
        decreases messages.len(),
    {
        if messages.len() == 0 {
            self
        } else {
            self.run(catalog, messages.drop_last()).step(catalog, messages.last())
        }
    }

    /// Whether the parts of the screen fit together under this catalog. The
    /// resolved province is the empty one or one of the catalog, and the
    /// empty one while none is selected. The resolved district is the empty
    /// one or one of the resolved province, and the empty one while none is
    /// selected. The postal code is empty or the resolved district's code,
    /// and empty while no district is selected. The districts on offer are
    /// districts of the resolved province, in its order.
    pub open spec fn consistent(self, catalog: Seq<ProvinceView>) -> bool {
        let province = self.address.province.1;
        let district = self.address.district.1;
        &&& province == ProvinceView::empty() || catalog.contains(province)
        &&& self.address.province.0 is None ==> province == ProvinceView::empty()
        &&& district == DistrictView::empty() || province.districts.contains(district)
        &&& self.address.district.0 is None ==> district == DistrictView::empty()
        &&& self.address.postal_code == Seq::<char>::empty() || self.address.postal_code
            == decimal(district.postal_code as nat)
        &&& self.address.district.0 is None ==> self.address.postal_code == Seq::<char>::empty()
        &&& keeps_order(self.districts.options, province.district_names())
    }
}

/// The screen is consistent when it is entered, and no message makes it
/// inconsistent: a selection at one level never leaves a selection below it
/// that belongs to another, and the district selector never offers a
/// district of another province.
pub proof fn law_messages_keep_consistency(
    s: StateModel,
    catalog: Seq<ProvinceView>,
    message: MessageView,
)
    requires
        s.consistent(catalog),
    ensures
        StateModel::initial(catalog).consistent(catalog),
        s.step(catalog, message).consistent(catalog),
{
    assert(embeds(
        Seq::<Seq<char>>::empty(),
        ProvinceView::empty().district_names(),
        Seq::<int>::empty(),
    ));
    match message {
        MessageView::OnProvinceSelect(name) => {
            province_names(catalog).index_of_first_ensures(name);
            let province = province_named(catalog, name);
            lemma_keeps_own_order(province.district_names());
            match province_names(catalog).index_of_first(name) {
                Some(i) => {
                    assert(catalog.contains(catalog[i]));
                },
                None => {},
            }
        },
        MessageView::OnDistrictSelect(name) => {
            let province = s.address.province.1;
            province.district_names().index_of_first_ensures(name);
            match province.district_names().index_of_first(name) {
                Some(i) => {
                    assert(province.districts.contains(province.districts[i]));
                },
                None => {},
            }
        },
        MessageView::OnDistrictInput(filter) => {
            lemma_matching_keeps_order(s.address.province.1.district_names(), filter);
        },
        _ => {},
    }
}

/// A message leaves every selector as it was but the one that it refills.
pub proof fn law_message_refills_one_selector(
    s: StateModel,
    catalog: Seq<ProvinceView>,
    message: MessageView,
    selector: Selector,
)
    requires
        message.refills() != Some(selector),
    ensures
        s.step(catalog, message).offered(selector) == s.offered(selector),
{
}

/// With nothing typed, the province selector offers every province of the
/// catalog, in catalog order, whatever the screen held before.
pub proof fn law_empty_filter_offers_every_province(s: StateModel, catalog: Seq<ProvinceView>)
    ensures
        s.filter_provinces(catalog, Seq::<char>::empty()).provinces.options == province_names(
            catalog,
        ),
{
    lemma_matching_empty_filter(province_names(catalog));
}

/// Whatever is typed, every province that the selector then offers contains
/// the typed text, every province of the catalog that contains it is offered,
/// and the offered provinces stand in catalog order.
pub proof fn law_offered_provinces_match_in_order(
    s: StateModel,
    catalog: Seq<ProvinceView>,
    filter: Seq<char>,
)
    ensures
        forall|i: int|
            0 <= i < s.filter_provinces(catalog, filter).provinces.options.len() ==> is_substring(
                filter,
                #[trigger] s.filter_provinces(catalog, filter).provinces.options[i],
            ),
        forall|i: int|
            0 <= i < catalog.len() && is_substring(filter, catalog[i].name) ==> s.filter_provinces(
                catalog,
                filter,
            ).provinces.options.contains(#[trigger] catalog[i].name),
        keeps_order(
            s.filter_provinces(catalog, filter).provinces.options,
            province_names(catalog),
        ),
{
    let names = province_names(catalog);
    lemma_matching_sound_and_complete(names, filter);
    lemma_matching_keeps_order(names, filter);
    assert forall|i: int|
        0 <= i < catalog.len() && is_substring(filter, catalog[i].name) implies matching(
        names,
        filter,
    ).contains(#[trigger] catalog[i].name) by {
        assert(names[i] == catalog[i].name);
    }
}

/// Selecting a province and then another leaves no district, no sub-district
/// and no postal code, whatever the screen held before and whatever the two
/// names are. Selecting the same province twice is the same as selecting it
/// once.
pub proof fn law_province_selection_resets(
    s: StateModel,
    catalog: Seq<ProvinceView>,
    first: Seq<char>,
    second: Seq<char>,
)
    ensures
        ({
            let after = s.select_province(catalog, first).select_province(catalog, second);
            &&& after.address.district == (None::<Seq<char>>, DistrictView::empty())
            &&& after.address.sub_district is None
            &&& after.address.postal_code == Seq::<char>::empty()
            &&& after == s.select_province(catalog, second)
        }),
{
}

/// Selecting a district by a name that a district of the selected province
/// bears, in a province that names each district once, resolves to that
/// district and sets the postal code to its code in decimal: digits only,
/// which read back as the code.
pub proof fn law_district_selection_sets_postal_code(s: StateModel, name: Seq<char>, i: int)
    requires
        s.address.province.1.districts_distinct(),
        0 <= i < s.address.province.1.districts.len(),
        s.address.province.1.districts[i].name == name,
    ensures
        ({
            let district = s.address.province.1.districts[i];
            let after = s.select_district(name);
            &&& after.address.district == (Some(name), district)
            &&& after.address.postal_code == decimal(district.postal_code as nat)
            &&& after.address.postal_code.len() >= 1
            &&& forall|k: int|
                0 <= k < after.address.postal_code.len() ==> is_digit(
                    #[trigger] after.address.postal_code[k],
                )
            &&& decimal_value(after.address.postal_code) == district.postal_code
        }),
{
    let names = s.address.province.1.district_names();
    names.index_of_first_ensures(name);
    assert(names[i] == name);
    assert(names.contains(name));
    let first = names.index_of_first(name)->0;
    assert(names[first] == name);
    assert(first == i);
    lemma_decimal_reads_back(s.address.province.1.districts[i].postal_code as nat);
}

/// Typing into the selectors changes nothing of the address: what was
/// selected stays selected.
pub proof fn law_filter_inputs_keep_address(
    s: StateModel,
    catalog: Seq<ProvinceView>,
    inputs: Seq<MessageView>,
)
    requires
        forall|i: int| 0 <= i < inputs.len() ==> is_filter_input(#[trigger] inputs[i]),
    ensures
        s.run(catalog, inputs).address == s.address,
    decreases inputs.len(),
{
    if inputs.len() > 0 {
        let earlier = inputs.drop_last();
        assert forall|i: int| 0 <= i < earlier.len() implies is_filter_input(
            #[trigger] earlier[i],
        ) by {
            assert(earlier[i] == inputs[i]);
        }
        law_filter_inputs_keep_address(s, catalog, earlier);
        assert(is_filter_input(inputs.last()));
    }
}

/// After any run of filter inputs, clearing a selector's text makes it offer
/// the whole list of its scope again: every province of the catalog, every
/// district of the selected province, every sub-district of the selected
/// district, each in catalog order.
pub proof fn law_clearing_filter_restores_all(
    s: StateModel,
    catalog: Seq<ProvinceView>,
    inputs: Seq<MessageView>,
)
    requires
        forall|i: int| 0 <= i < inputs.len() ==> is_filter_input(#[trigger] inputs[i]),
    ensures
        ({
            let later = s.run(catalog, inputs);
            let none = Seq::<char>::empty();
            &&& later.filter_provinces(catalog, none).provinces.options == province_names(catalog)
            &&& later.filter_districts(none).districts.options
                == s.address.province.1.district_names()
            &&& later.filter_sub_districts(none).sub_districts.options
                == s.address.district.1.sub_districts
        }),
{
    law_filter_inputs_keep_address(s, catalog, inputs);
    lemma_matching_empty_filter(province_names(catalog));
    lemma_matching_empty_filter(s.address.province.1.district_names());
    lemma_matching_empty_filter(s.address.district.1.sub_districts);
}

/// The districts that are offered when a province has just been selected are
/// offered again when, after any run of filter inputs, the district
/// selector's text is cleared.
pub proof fn law_clearing_filter_restores_districts_of_selection(
    s: StateModel,
    catalog: Seq<ProvinceView>,
    name: Seq<char>,
    inputs: Seq<MessageView>,
)
    requires
        forall|i: int| 0 <= i < inputs.len() ==> is_filter_input(#[trigger] inputs[i]),
    ensures
        s.select_province(catalog, name).run(catalog, inputs).filter_districts(
            Seq::<char>::empty(),
        ).districts.options == s.select_province(catalog, name).districts.options,
{
    law_clearing_filter_restores_all(s.select_province(catalog, name), catalog, inputs);
}

/// On the screen as it is entered, each selector offers the whole list of
/// its scope, and offers it again whenever, after any run of filter inputs,
/// its text is cleared: clearing a filter leads back to the options that the
/// screen opened with.
pub proof fn law_clearing_filter_restores_initial_options(
    catalog: Seq<ProvinceView>,
    inputs: Seq<MessageView>,
)
    requires
        forall|i: int| 0 <= i < inputs.len() ==> is_filter_input(#[trigger] inputs[i]),
    ensures
        ({
            let opened = StateModel::initial(catalog);
            let later = opened.run(catalog, inputs);
            let none = Seq::<char>::empty();
            &&& opened.provinces.options == province_names(catalog)
            &&& later.filter_provinces(catalog, none).provinces.options == opened.provinces.options
            &&& later.filter_districts(none).districts.options == opened.districts.options
            &&& later.filter_sub_districts(none).sub_districts.options
                == opened.sub_districts.options
            &&& opened.filter_provinces(catalog, none).provinces.options
                == opened.provinces.options
        }),
{
    let opened = StateModel::initial(catalog);
    law_clearing_filter_restores_all(opened, catalog, inputs);
    law_clearing_filter_restores_all(opened, catalog, Seq::<MessageView>::empty());
    assert(ProvinceView::empty().district_names() =~= Seq::<Seq<char>>::empty());
}

} // verus!
