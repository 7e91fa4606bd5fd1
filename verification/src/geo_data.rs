use crate::text::texts;
use vstd::prelude::*;

verus! {

/// A district of a province: its name, its postal code and the names of its
/// sub-districts in catalog order.
#[derive(PartialEq, Debug)]
pub struct District {
    pub name: String,
    pub postal_code: u32,
    pub sub_districts: Vec<String>,
}

/// A province with its districts in catalog order.
pub struct Province {
    pub name: String,
    pub districts: Vec<District>,
}

/// What a `District` holds, as plain mathematical values.
pub struct DistrictView {
    pub name: Seq<char>,
    pub postal_code: u32,
    pub sub_districts: Seq<Seq<char>>,
}

/// What a `Province` holds, as plain mathematical values.
pub struct ProvinceView {
    pub name: Seq<char>,
    pub districts: Seq<DistrictView>,
}

impl View for District {
    type V = DistrictView;

    open spec fn view(&self) -> DistrictView {
        DistrictView {
            name: self.name@,
            postal_code: self.postal_code,
            sub_districts: texts(self.sub_districts@),
        }
    }
}

impl View for Province {
    type V = ProvinceView;

    open spec fn view(&self) -> ProvinceView {
        ProvinceView { name: self.name@, districts: district_views(self.districts@) }
    }
}

/// The views of a list of districts, in order.
pub open spec fn district_views(v: Seq<District>) -> Seq<DistrictView> {
    v.map_values(|d: District| d@)
}

/// The views of a catalog's provinces, in order.
pub open spec fn province_views(v: Seq<Province>) -> Seq<ProvinceView> {
    v.map_values(|p: Province| p@)
}

/// The names of a catalog's provinces, in catalog order.
pub open spec fn province_names(catalog: Seq<ProvinceView>) -> Seq<Seq<char>> {
    catalog.map_values(|p: ProvinceView| p.name)
}

/// The first province of the catalog that bears exactly this name, or the
/// empty province where none does.
pub open spec fn province_named(catalog: Seq<ProvinceView>, name: Seq<char>) -> ProvinceView {
    match province_names(catalog).index_of_first(name) {
        Some(i) => catalog[i],
        None => ProvinceView::empty(),
    }
}

impl DistrictView {
    /// The district that stands for "none": no name, code zero, no
    /// sub-districts.
    pub open spec fn empty() -> DistrictView {
        DistrictView { name: Seq::empty(), postal_code: 0, sub_districts: Seq::empty() }
    }
}

impl ProvinceView {
    /// The province that stands for "none": no name and no districts.
    pub open spec fn empty() -> ProvinceView {
        ProvinceView { name: Seq::empty(), districts: Seq::empty() }
    }

    /// The names of the province's districts, in catalog order.
    pub open spec fn district_names(self) -> Seq<Seq<char>> {
        self.districts.map_values(|d: DistrictView| d.name)
    }

    /// The first district of the province that bears exactly this name.
    pub open spec fn district_named(self, name: Seq<char>) -> Option<DistrictView> {
        match self.district_names().index_of_first(name) {
            Some(i) => Some(self.districts[i]),
            None => None,
        }
    }

    /// No two districts of the province bear the same name.
    pub open spec fn districts_distinct(self) -> bool {
        self.district_names().no_duplicates()
    }
}

impl Default for District {
    fn default() -> (r: District)
        ensures
            r@ == DistrictView::empty(),
    {
        let r = District { name: String::new(), postal_code: 0, sub_districts: Vec::new() };
        assert(texts(r.sub_districts@) =~= Seq::<Seq<char>>::empty());
        r
    }
}

impl Default for Province {
    fn default() -> (r: Province)
        ensures
            r@ == ProvinceView::empty(),
    {
        let r = Province { name: String::new(), districts: Vec::new() };
        assert(district_views(r.districts@) =~= Seq::<DistrictView>::empty());
        r
    }
}

impl Clone for District {
    fn clone(&self) -> (r: District)
        ensures
            r@ == self@,
    {
        let r = District {
            name: self.name.clone(),
            postal_code: self.postal_code,
            sub_districts: self.sub_districts.clone(),
        };
        assert(texts(r.sub_districts@) =~= texts(self.sub_districts@));
        r
    }
}

impl Clone for Province {
    fn clone(&self) -> (r: Province)
        ensures
            r@ == self@,
    {
        let r = Province { name: self.name.clone(), districts: self.districts.clone() };
        assert(district_views(r.districts@) =~= district_views(self.districts@));
        r
    }
}

/// The position of the first of `names` that equals `name`.
fn position_of(names: &Vec<String>, name: &str) -> (r: Option<usize>)
    ensures
        match r {
            Some(i) => texts(names@).index_of_first(name@) == Some(i as int),
            None => texts(names@).index_of_first(name@) is None,
        },
{
    let ghost all = texts(names@);
    let n: usize = names.len();
    let wanted = String::from_str(name);
    let mut i: usize = 0;
    while i < n
        invariant
            n == names@.len(),
            i <= n,
            all == texts(names@),
            wanted@ == name@,
            forall|j: int| 0 <= j < i ==> all[j] != name@,
        decreases n - i,
    {
        if names[i] == wanted {
            proof {
                assert(all[i as int] == name@);
                assert(all.contains(name@));
                all.index_of_first_ensures(name@);
                let first = all.index_of_first(name@)->0;
                assert(all[first] == name@);
                if first < i {
                    assert(all[first] != name@);
                }
                if i < first {
                    assert(all[i as int] != name@);
                }
            }
            return Some(i);
        }
        i = i + 1;
    }
    proof {
        all.index_of_first_ensures(name@);
        if all.contains(name@) {
            let k = choose|k: int| 0 <= k < all.len() && all[k] == name@;
            assert(all[k] != name@);
        }
    }
    None
}

/// The names of the catalog's provinces, in catalog order.
pub fn names_of_provinces(catalog: &Vec<Province>) -> (r: Vec<String>)
    ensures
        texts(r@) == province_names(province_views(catalog@)),
{
    let n: usize = catalog.len();
    let mut r: Vec<String> = Vec::new();
    let mut i: usize = 0;
    while i < n
        invariant
            n == catalog@.len(),
            i <= n,
            r@.len() == i,
            forall|j: int| 0 <= j < i ==> (#[trigger] r@[j])@ == catalog@[j].name@,
        decreases n - i,
    {
        r.push(catalog[i].name.clone());
        i = i + 1;
    }
    assert(texts(r@) =~= province_names(province_views(catalog@)));
    r
}

/// Looks a province up by its exact name: the position of the first province
/// of the catalog that bears it.
pub fn find_province(catalog: &Vec<Province>, name: &str) -> (r: Option<usize>)
    ensures
        match r {
            Some(i) => province_names(province_views(catalog@)).index_of_first(name@) == Some(
                i as int,
            ),
            None => province_names(province_views(catalog@)).index_of_first(name@) is None,
        },
        r is Some ==> r->0 < catalog@.len(),
        r is Some ==> catalog@[r->0 as int]@ == province_named(province_views(catalog@), name@),
        r is None ==> province_named(province_views(catalog@), name@) == ProvinceView::empty(),
{
    let names = names_of_provinces(catalog);
    proof {
        texts(names@).index_of_first_ensures(name@);
    }
    position_of(&names, name)
}

impl Province {
    /// The names of the province's districts, in catalog order.
    pub fn district_names(&self) -> (r: Vec<String>)
        ensures
            texts(r@) == self@.district_names(),
    {
        let n: usize = self.districts.len();
        let mut r: Vec<String> = Vec::new();
        let mut i: usize = 0;
        while i < n
            invariant
                n == self.districts@.len(),
                i <= n,
                r@.len() == i,
                forall|j: int| 0 <= j < i ==> (#[trigger] r@[j])@ == self.districts@[j].name@,
            decreases n - i,
        {
            r.push(self.districts[i].name.clone());
            i = i + 1;
        }
        assert(texts(r@) =~= self@.district_names());
        r
    }

    /// Looks a district of this province up by its exact name: the position of
    /// the first district that bears it.
    pub fn find_district(&self, name: &str) -> (r: Option<usize>)
        ensures
            match r {
                Some(i) => self@.district_names().index_of_first(name@) == Some(i as int),
                None => self@.district_names().index_of_first(name@) is None,
            },
            r is Some ==> r->0 < self.districts@.len(),
            r is Some ==> Some(self.districts@[r->0 as int]@) == self@.district_named(name@),
            r is None ==> self@.district_named(name@) is None,
    {
        let names = self.district_names();
        proof {
            texts(names@).index_of_first_ensures(name@);
        }
        position_of(&names, name)
    }
}

} // verus!
