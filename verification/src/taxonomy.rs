//! The cargo taxonomy: which item keys a cargo type covers, and the
//! expansion of storage rules that speak of a whole type into rules for each
//! item of the type.
//!
//! Expansion is additive: the rules that were given stay where they are and
//! the rules for the items follow them.

use crate::cargo_map::CargoMap;
use crate::helper::no_key;
use crate::text::copy_text;
use crate::ue_type::{StorageConfig, StorageConfigView};
use vstd::prelude::*;

verus! {

/// A table from cargo type to the item keys of that type, in order.
#[derive(Debug, Clone, PartialEq)]
pub struct Taxonomy {
    table: CargoMap<Vec<String>>,
}

impl View for Taxonomy {
    type V = Map<Seq<char>, Seq<Seq<char>>>;

    closed spec fn view(&self) -> Map<Seq<char>, Seq<Seq<char>>> {
        self.table@.map_values(|items: Vec<String>| items.deep_view())
    }
}

impl Taxonomy {
    /// The table without any type.
    pub fn new() -> (r: Self)
        ensures
            r@ == Map::<Seq<char>, Seq<Seq<char>>>::empty(),
    {
        let r = Taxonomy { table: CargoMap::new() };
        proof {
            assert(r@ =~= Map::<Seq<char>, Seq<Seq<char>>>::empty());
        }
        r
    }

    /// Sets the items of `cargo_type`, replacing what was there.
    pub fn insert(&mut self, cargo_type: String, items: Vec<String>)
        ensures
            final(self)@ == old(self)@.insert(cargo_type@, items.deep_view()),
    {
        self.table.insert(cargo_type, items);
        proof {
            assert(self@ =~= old(self)@.insert(cargo_type@, items.deep_view()));
        }
    }

    /// The items of `cargo_type`, where the table has the type.
    pub fn get(&self, cargo_type: &str) -> (r: Option<&Vec<String>>)
        ensures
            match r {
                Some(items) => self@.contains_key(cargo_type@) && items.deep_view()
                    == self@[cargo_type@],
                None => !self@.contains_key(cargo_type@),
            },
    {
        self.table.get(cargo_type)
    }

    /// The number of types in the table.
    pub fn len(&self) -> (r: usize)
        ensures
            self@.dom().finite(),
            r == self@.dom().len(),
    {
        proof {
            assert(self@.dom() =~= self.table@.dom());
        }
        self.table.len()
    }
}

/// The rules that a type-level rule stands for: one for each item of its
/// type, with the type and the capacity of the rule. A rule with a key of its
/// own, or of a type that the table does not have, stands for none.
pub open spec fn expansion_of(
    rule: StorageConfigView,
    taxonomy: Map<Seq<char>, Seq<Seq<char>>>,
) -> Seq<StorageConfigView> {
    if rule.cargo_key == no_key() && taxonomy.contains_key(rule.cargo_type) {
        let items = taxonomy[rule.cargo_type];
        Seq::new(
            items.len(),
            |i: int|
                StorageConfigView {
                    cargo_type: rule.cargo_type,
                    cargo_key: items[i],
                    max_storage: rule.max_storage,
                },
        )
    } else {
        Seq::empty()
    }
}

/// The expansions of all rules, in the order of the rules.
pub open spec fn expansions(
    rules: Seq<StorageConfigView>,
    taxonomy: Map<Seq<char>, Seq<Seq<char>>>,
) -> Seq<StorageConfigView>
    decreases rules.len(),
{
    if rules.len() == 0 {
        Seq::empty()
    } else {
        expansions(rules.drop_last(), taxonomy) + expansion_of(rules.last(), taxonomy)
    }
}

/// The expanded list: the rules as given, then their expansions.
pub open spec fn expanded(
    rules: Seq<StorageConfigView>,
    taxonomy: Map<Seq<char>, Seq<Seq<char>>>,
) -> Seq<StorageConfigView> {
    rules + expansions(rules, taxonomy)
}

/// Expansion is additive: the expanded list is at least as long as the list
/// of rules and begins with these rules, unchanged.
pub proof fn lemma_expansion_is_additive(
    rules: Seq<StorageConfigView>,
    taxonomy: Map<Seq<char>, Seq<Seq<char>>>,
)
    ensures
        expanded(rules, taxonomy).len() >= rules.len(),
        expanded(rules, taxonomy).take(rules.len() as int) == rules,
        forall|i: int| 0 <= i < rules.len() ==> expanded(rules, taxonomy)[i] == rules[i],
{
    assert(expanded(rules, taxonomy).take(rules.len() as int) =~= rules);
}

/// Every item of the type of a type-level rule has its rule in the expanded
/// list, with the capacity of the type-level rule.
pub proof fn lemma_expansion_covers_items(
    rules: Seq<StorageConfigView>,
    taxonomy: Map<Seq<char>, Seq<Seq<char>>>,
    r: int,
    item: int,
)
    requires
        0 <= r < rules.len(),
        rules[r].cargo_key == no_key(),
        taxonomy.contains_key(rules[r].cargo_type),
        0 <= item < taxonomy[rules[r].cargo_type].len(),
    ensures
        expanded(rules, taxonomy).contains(
            StorageConfigView {
                cargo_type: rules[r].cargo_type,
                cargo_key: taxonomy[rules[r].cargo_type][item],
                max_storage: rules[r].max_storage,
            },
        ),
    decreases rules.len(),
{
    let want = StorageConfigView {
        cargo_type: rules[r].cargo_type,
        cargo_key: taxonomy[rules[r].cargo_type][item],
        max_storage: rules[r].max_storage,
    };
    let before = expansions(rules.drop_last(), taxonomy);
    let last = expansion_of(rules.last(), taxonomy);
    let all = expanded(rules, taxonomy);
    if r == rules.len() - 1 {
        assert(last[item] == want);
        assert(all[rules.len() + before.len() + item] == want);
    } else {
        lemma_expansion_covers_items(rules.drop_last(), taxonomy, r, item);
        let shorter = expanded(rules.drop_last(), taxonomy);
        let k = choose|k: int| 0 <= k < shorter.len() && shorter[k] == want;
        if k < rules.len() - 1 {
            assert(all[k] == want);
        } else {
            assert(all[k + 1] == want);
        }
    }
}

/// Expands the type-level storage rules over the taxonomy.
pub fn expand_storage_configs(rules: &Vec<StorageConfig>, taxonomy: &Taxonomy) -> (r: Vec<
    StorageConfig,
>)
    ensures
        r.deep_view() == expanded(rules.deep_view(), taxonomy@),
        r.len() >= rules.len(),
        forall|i: int| 0 <= i < rules.len() ==> r.deep_view()[i] == rules.deep_view()[i],
{
    let ghost given = rules.deep_view();
    let mut out: Vec<StorageConfig> = Vec::new();
    let mut i: usize = 0;
    while i < rules.len()
        invariant
            i <= rules.len(),
            given == rules.deep_view(),
            out.deep_view() == given.take(i as int),
        decreases rules.len() - i,
    {
        let rule = &rules[i];
        let copy = StorageConfig {
            cargo_type: copy_text(rule.cargo_type.as_str()),
            cargo_key: copy_text(rule.cargo_key.as_str()),
            max_storage: rule.max_storage,
        };
        proof {
            assert(copy.deep_view() == given[i as int]);
            assert(out.deep_view().push(copy.deep_view()) =~= given.take(i + 1));
        }
        let ghost before = out.deep_view();
        out.push(copy);
        proof {
            assert(out.deep_view() =~= before.push(copy.deep_view()));
        }
        i += 1;
    }
    proof {
        assert(given.take(given.len() as int) == given);
        assert(given.take(0).len() == 0);
        assert(out.deep_view() =~= given + expansions(given.take(0), taxonomy@));
    }
    let mut k: usize = 0;
    while k < rules.len()
        invariant
            k <= rules.len(),
            given == rules.deep_view(),
            out.deep_view() == given + expansions(given.take(k as int), taxonomy@),
        decreases rules.len() - k,
    {
        let rule = &rules[k];
        let ghost done = out.deep_view();
        proof {
            assert(given.take(k + 1).drop_last() == given.take(k as int));
            assert(given.take(k + 1).last() == rule.deep_view());
        }
        if *rule.cargo_key.as_str() == *"None" {
            if let Some(items) = taxonomy.get(rule.cargo_type.as_str()) {
                let ghost item_views = items.deep_view();
                let ghost target = expansion_of(rule.deep_view(), taxonomy@);
                let mut n: usize = 0;
                while n < items.len()
                    invariant
                        n <= items.len(),
                        item_views == items.deep_view(),
                        target.len() == items.len(),
                        target == expansion_of(rule.deep_view(), taxonomy@),
                        item_views == taxonomy@[rule.cargo_type@],
                        rule.cargo_key@ == no_key(),
                        taxonomy@.contains_key(rule.cargo_type@),
                        out.deep_view() == done + target.take(n as int),
                    decreases items.len() - n,
                {
                    let new_config = StorageConfig {
                        cargo_key: copy_text(items[n].as_str()),
                        cargo_type: copy_text(rule.cargo_type.as_str()),
                        max_storage: rule.max_storage,
                    };
                    let ghost before = out.deep_view();
                    proof {
                        assert(item_views[n as int] == items@[n as int]@);
                        assert(new_config.deep_view() == target[n as int]);
                    }
                    out.push(new_config);
                    proof {
                        assert(out.deep_view() =~= before.push(new_config.deep_view()));
                        assert(out.deep_view() =~= done + target.take(n + 1));
                    }
                    n += 1;
                }
                proof {
                    assert(target.take(target.len() as int) == target);
                }
            }
        }
        proof {
            let e = expansion_of(rule.deep_view(), taxonomy@);
            assert(out.deep_view() =~= done + e);
            assert(done + e =~= given + (expansions(given.take(k as int), taxonomy@) + e));
        }
        k += 1;
    }
    proof {
        assert(given.take(given.len() as int) == given);
        lemma_expansion_is_additive(given, taxonomy@);
    }
    out
}

/// The texts of `items`, owned.
pub fn text_list(items: &[&str]) -> (r: Vec<String>)
    ensures
        r.deep_view() == Seq::new(items@.len(), |i: int| items@[i]@),
{
    let mut out: Vec<String> = Vec::new();
    let mut i: usize = 0;
    while i < items.len()
        invariant
            i <= items.len(),
            out@.len() == i,
            forall|j: int| 0 <= j < i ==> (#[trigger] out@[j])@ == items@[j]@,
        decreases items.len() - i,
    {
        out.push(copy_text(items[i]));
        i += 1;
    }
    proof {
        assert(out.deep_view() =~= Seq::new(items@.len(), |i: int| items@[i]@));
    }
    out
}

/// The table of the game: every cargo type with the items that it covers.
pub open spec fn standard_taxonomy() -> Map<Seq<char>, Seq<Seq<char>>> {
    Map::<Seq<char>, Seq<Seq<char>>>::empty()
    .insert(
        "EDeliveryCargoType::SmallPackage"@,
        seq![
            "SmallBox"@,
            "CarrotBox"@,
            "AppleBox"@,
            "OrangeBox"@,
            "GlassBottleBox"@,
            "Rice"@,
            "PumpkinBox"@,
            "CornBox"@,
            "CheeseBox"@,
            "MeatBox"@,
            "BreadBox"@,
            "SnackBox"@,
            "GiftBox_01"@,
        ],
    )
    .insert(
        "EDeliveryCargoType::LargePackage"@,
        seq![
            "BoxPallete_01"@,
            "BoxPallete_02"@,
            "BoxPallete_03"@,
            "PowerBox"@,
            "OrangeBoxes"@,
            "RicePallet"@,
            "PumpkinPallet"@,
            "CornPallet"@,
            "BeanPallet"@,
            "HempPallet"@,
            "CabbagePallet"@,
            "ChilliPallet"@,
            "PotatoPallet"@,
            "CheesePallet"@,
            "BreadPallet"@,
        ],
    )
    .insert(
        "EDeliveryCargoType::None"@,
        seq![
            "PlasticPallete"@,
            "QuicklimePallet"@,
            "Fuel"@,
            "Oil"@,
            "CrudeOil"@,
            "LiveFish_01"@,
            "MilitarySupplyBox_01_Empty"@,
            "Milk"@,
            "AirlineMealPallet"@,
            "FormulaSCM"@,
            "PlasticPipes_6m"@,
            "lHBeam_6m"@,
            "SteelCoil_10t"@,
            "Cement"@,
            "Terra"@,
            "SunflowerSeed"@,
        ],
    )
    .insert(
        "EDeliveryCargoType::FinalProduct"@,
        seq!["ToyBoxes"@, "BottlePallete"@],
    )
    .insert(
        "EDeliveryCargoType::Wood"@,
        seq!["WoodPlank_14ft_5t"@],
    )
    .insert(
        "EDeliveryCargoType::Container"@,
        seq![
            "Container_30ft_5t"@,
            "Container_30ft_10t"@,
            "Container_30ft_20t"@,
            "Container_20ft_01"@,
            "Container_40ft_01"@,
        ],
    )
    .insert(
        "EDeliveryCargoType::Log"@,
        seq!["Log_30ft_30t"@, "Log_Oak_12ft"@, "Log_Oak_24ft"@, "Log_20ft"@],
    )
    .insert(
        "EDeliveryCargoType::Sand"@,
        seq!["Sand"@, "FineSand"@],
    )
    .insert(
        "EDeliveryCargoType::Coal"@,
        seq!["Coal"@],
    )
    .insert(
        "EDeliveryCargoType::Stone"@,
        seq!["LimestoneRock"@, "Limestone"@, "IronOre"@],
    )
    .insert(
        "EDeliveryCargoType::Concrete"@,
        seq!["Concrete"@],
    )
    .insert(
        "EDeliveryCargoType::Garbage"@,
        seq!["TrashBag"@, "Trash_Big"@],
    )
    .insert(
        "EDeliveryCargoType::Furniture"@,
        seq!["Sofa_01"@, "Sofa_02"@, "Sofa_03"@, "Sofa_04"@, "Bed_01"@, "Bed_02"@, "Bed_03"@],
    )
    .insert(
        "EDeliveryCargoType::Food"@,
        seq![
            "Pizza_01"@,
            "Pizza_02"@,
            "Pizza_03"@,
            "Pizza_04"@,
            "Pizza_05"@,
            "Pizza_01_Premium"@,
            "Burger_01"@,
            "Burger_01_Signature"@,
        ],
    )
    .insert(
        "EDeliveryCargoType::MilitarySupply"@,
        seq!["MilitarySupplyBox_01"@],
    )
}

impl Taxonomy {
    /// The table of the game.
    pub fn standard() -> (r: Self)
        ensures
            r@ == standard_taxonomy(),
    {
        let mut t = Taxonomy::new();
        let items = text_list(&[
            "SmallBox",
            "CarrotBox",
            "AppleBox",
            "OrangeBox",
            "GlassBottleBox",
            "Rice",
            "PumpkinBox",
            "CornBox",
            "CheeseBox",
            "MeatBox",
            "BreadBox",
            "SnackBox",
            "GiftBox_01",
        ]);
        proof {
            assert(items.deep_view() =~= seq![
                "SmallBox"@,
                "CarrotBox"@,
                "AppleBox"@,
                "OrangeBox"@,
                "GlassBottleBox"@,
                "Rice"@,
                "PumpkinBox"@,
                "CornBox"@,
                "CheeseBox"@,
                "MeatBox"@,
                "BreadBox"@,
                "SnackBox"@,
                "GiftBox_01"@,
            ]);
        }
        t.insert(copy_text("EDeliveryCargoType::SmallPackage"), items);
        let items = text_list(&[
            "BoxPallete_01",
            "BoxPallete_02",
            "BoxPallete_03",
            "PowerBox",
            "OrangeBoxes",
            "RicePallet",
            "PumpkinPallet",
            "CornPallet",
            "BeanPallet",
            "HempPallet",
            "CabbagePallet",
            "ChilliPallet",
            "PotatoPallet",
            "CheesePallet",
            "BreadPallet",
        ]);
        proof {
            assert(items.deep_view() =~= seq![
                "BoxPallete_01"@,
                "BoxPallete_02"@,
                "BoxPallete_03"@,
                "PowerBox"@,
                "OrangeBoxes"@,
                "RicePallet"@,
                "PumpkinPallet"@,
                "CornPallet"@,
                "BeanPallet"@,
                "HempPallet"@,
                "CabbagePallet"@,
                "ChilliPallet"@,
                "PotatoPallet"@,
                "CheesePallet"@,
                "BreadPallet"@,
            ]);
        }
        t.insert(copy_text("EDeliveryCargoType::LargePackage"), items);
        let items = text_list(&[
            "PlasticPallete",
            "QuicklimePallet",
            "Fuel",
            "Oil",
            "CrudeOil",
            "LiveFish_01",
            "MilitarySupplyBox_01_Empty",
            "Milk",
            "AirlineMealPallet",
            "FormulaSCM",
            "PlasticPipes_6m",
            "lHBeam_6m",
            "SteelCoil_10t",
            "Cement",
            "Terra",
            "SunflowerSeed",
        ]);
        proof {
            assert(items.deep_view() =~= seq![
                "PlasticPallete"@,
                "QuicklimePallet"@,
                "Fuel"@,
                "Oil"@,
                "CrudeOil"@,
                "LiveFish_01"@,
                "MilitarySupplyBox_01_Empty"@,
                "Milk"@,
                "AirlineMealPallet"@,
                "FormulaSCM"@,
                "PlasticPipes_6m"@,
                "lHBeam_6m"@,
                "SteelCoil_10t"@,
                "Cement"@,
                "Terra"@,
                "SunflowerSeed"@,
            ]);
        }
        t.insert(copy_text("EDeliveryCargoType::None"), items);
        let items = text_list(&["ToyBoxes", "BottlePallete"]);
        proof {
            assert(items.deep_view() =~= seq!["ToyBoxes"@, "BottlePallete"@]);
        }
        t.insert(copy_text("EDeliveryCargoType::FinalProduct"), items);
        let items = text_list(&["WoodPlank_14ft_5t"]);
        proof {
            assert(items.deep_view() =~= seq!["WoodPlank_14ft_5t"@]);
        }
        t.insert(copy_text("EDeliveryCargoType::Wood"), items);
        let items = text_list(&[
            "Container_30ft_5t",
            "Container_30ft_10t",
            "Container_30ft_20t",
            "Container_20ft_01",
            "Container_40ft_01",
        ]);
        proof {
            assert(items.deep_view() =~= seq![
                "Container_30ft_5t"@,
                "Container_30ft_10t"@,
                "Container_30ft_20t"@,
                "Container_20ft_01"@,
                "Container_40ft_01"@,
            ]);
        }
        t.insert(copy_text("EDeliveryCargoType::Container"), items);
        let items = text_list(&["Log_30ft_30t", "Log_Oak_12ft", "Log_Oak_24ft", "Log_20ft"]);
        proof {
            assert(items.deep_view() =~= seq![
                "Log_30ft_30t"@,
                "Log_Oak_12ft"@,
                "Log_Oak_24ft"@,
                "Log_20ft"@,
            ]);
        }
        t.insert(copy_text("EDeliveryCargoType::Log"), items);
        let items = text_list(&["Sand", "FineSand"]);
        proof {
            assert(items.deep_view() =~= seq!["Sand"@, "FineSand"@]);
        }
        t.insert(copy_text("EDeliveryCargoType::Sand"), items);
        let items = text_list(&["Coal"]);
        proof {
            assert(items.deep_view() =~= seq!["Coal"@]);
        }
        t.insert(copy_text("EDeliveryCargoType::Coal"), items);
        let items = text_list(&["LimestoneRock", "Limestone", "IronOre"]);
        proof {
            assert(items.deep_view() =~= seq!["LimestoneRock"@, "Limestone"@, "IronOre"@]);
        }
        t.insert(copy_text("EDeliveryCargoType::Stone"), items);
        let items = text_list(&["Concrete"]);
        proof {
            assert(items.deep_view() =~= seq!["Concrete"@]);
        }
        t.insert(copy_text("EDeliveryCargoType::Concrete"), items);
        let items = text_list(&["TrashBag", "Trash_Big"]);
        proof {
            assert(items.deep_view() =~= seq!["TrashBag"@, "Trash_Big"@]);
        }
        t.insert(copy_text("EDeliveryCargoType::Garbage"), items);
        let items = text_list(&[
            "Sofa_01",
            "Sofa_02",
            "Sofa_03",
            "Sofa_04",
            "Bed_01",
            "Bed_02",
            "Bed_03",
        ]);
        proof {
            assert(items.deep_view() =~= seq![
                "Sofa_01"@,
                "Sofa_02"@,
                "Sofa_03"@,
                "Sofa_04"@,
                "Bed_01"@,
                "Bed_02"@,
                "Bed_03"@,
            ]);
        }
        t.insert(copy_text("EDeliveryCargoType::Furniture"), items);
        let items = text_list(&[
            "Pizza_01",
            "Pizza_02",
            "Pizza_03",
            "Pizza_04",
            "Pizza_05",
            "Pizza_01_Premium",
            "Burger_01",
            "Burger_01_Signature",
        ]);
        proof {
            assert(items.deep_view() =~= seq![
                "Pizza_01"@,
                "Pizza_02"@,
                "Pizza_03"@,
                "Pizza_04"@,
                "Pizza_05"@,
                "Pizza_01_Premium"@,
                "Burger_01"@,
                "Burger_01_Signature"@,
            ]);
        }
        t.insert(copy_text("EDeliveryCargoType::Food"), items);
        let items = text_list(&["MilitarySupplyBox_01"]);
        proof {
            assert(items.deep_view() =~= seq!["MilitarySupplyBox_01"@]);
        }
        t.insert(copy_text("EDeliveryCargoType::MilitarySupply"), items);
        t
    }
}

} // verus!
