//! Selection of sales metrics and the request payload built from it.

use vstd::prelude::*;

verus! {

/// A selection of metrics on game sales, one named switch per metric.
#[derive(Debug, Clone, Copy, PartialEq, Eq, Structural)]
pub struct Metrics {
    /// Minecraft items sold.
    pub minecraft_items_sold: bool,
    /// Minecraft prepaid cards redeemed.
    pub minecraft_prepaid_cards_redeemed: bool,
    /// Cobalt items sold.
    pub cobalt_items_sold: bool,
    /// Cobalt prepaid cards redeemed.
    pub cobalt_prepaid_cards_redeemed: bool,
    /// Scrolls items sold.
    pub scrolls_items_sold: bool,
    /// Dungeons items sold.
    pub dungeons_item_sold: bool,
}

/// The API string keys of the selected metrics, in their fixed order.
pub open spec fn metric_keys_spec(m: Metrics) -> Seq<Seq<char>> {
    (if m.minecraft_items_sold {
        seq!["item_sold_minecraft"@]
    } else {
        Seq::<Seq<char>>::empty()
    }) + (if m.minecraft_prepaid_cards_redeemed {
        seq!["prepaid_card_redeemed_minecraft"@]
    } else {
        Seq::<Seq<char>>::empty()
    }) + (if m.cobalt_items_sold {
        seq!["item_sold_cobalt"@]
    } else {
        Seq::<Seq<char>>::empty()
    }) + (if m.cobalt_prepaid_cards_redeemed {
        seq!["prepaid_card_redeemed_cobalt"@]
    } else {
        Seq::<Seq<char>>::empty()
    }) + (if m.scrolls_items_sold {
        seq!["item_sold_scrolls"@]
    } else {
        Seq::<Seq<char>>::empty()
    }) + (if m.dungeons_item_sold {
        seq!["item_sold_dungeons"@]
    } else {
        Seq::<Seq<char>>::empty()
    })
}

impl Metrics {
    /// A selection with every metric switched off.
    pub fn none() -> (m: Metrics)
        ensures
            m == (Metrics {
                minecraft_items_sold: false,
                minecraft_prepaid_cards_redeemed: false,
                cobalt_items_sold: false,
                cobalt_prepaid_cards_redeemed: false,
                scrolls_items_sold: false,
                dungeons_item_sold: false,
            }),
    {
        Metrics {
            minecraft_items_sold: false,
            minecraft_prepaid_cards_redeemed: false,
            cobalt_items_sold: false,
            cobalt_prepaid_cards_redeemed: false,
            scrolls_items_sold: false,
            dungeons_item_sold: false,
        }
    }

    /// A selection with every metric switched on.
    pub fn all() -> (m: Metrics)
        ensures
            m == (Metrics {
                minecraft_items_sold: true,
                minecraft_prepaid_cards_redeemed: true,
                cobalt_items_sold: true,
                cobalt_prepaid_cards_redeemed: true,
                scrolls_items_sold: true,
                dungeons_item_sold: true,
            }),
    {
        Metrics {
            minecraft_items_sold: true,
            minecraft_prepaid_cards_redeemed: true,
            cobalt_items_sold: true,
            cobalt_prepaid_cards_redeemed: true,
            scrolls_items_sold: true,
            dungeons_item_sold: true,
        }
    }

    /// Combined total of Minecraft items sold and cards redeemed.
    pub fn minecraft() -> (m: Metrics)
        ensures
            m == (Metrics {
                minecraft_items_sold: true,
                minecraft_prepaid_cards_redeemed: true,
                ..Metrics::none_spec()
            }),
    {
        Metrics { minecraft_items_sold: true, minecraft_prepaid_cards_redeemed: true, ..Self::none() }
    }

    /// Combined total of Cobalt items sold and cards redeemed.
    pub fn cobalt() -> (m: Metrics)
        ensures
            m == (Metrics {
                cobalt_items_sold: true,
                cobalt_prepaid_cards_redeemed: true,
                ..Metrics::none_spec()
            }),
    {
        Metrics { cobalt_items_sold: true, cobalt_prepaid_cards_redeemed: true, ..Self::none() }
    }

    /// The amount of Scrolls items sold.
    pub fn scrolls() -> (m: Metrics)
        ensures
            m == (Metrics { scrolls_items_sold: true, ..Metrics::none_spec() }),
    {
        Metrics { scrolls_items_sold: true, ..Self::none() }
    }

    /// The amount of Dungeons items sold.
    pub fn dungeons() -> (m: Metrics)
        ensures
            m == (Metrics { dungeons_item_sold: true, ..Metrics::none_spec() }),
    {
        Metrics { dungeons_item_sold: true, ..Self::none() }
    }

    /// The all-off selection, for stating the others against.
    pub open spec fn none_spec() -> Metrics {
        Metrics {
            minecraft_items_sold: false,
            minecraft_prepaid_cards_redeemed: false,
            cobalt_items_sold: false,
            cobalt_prepaid_cards_redeemed: false,
            scrolls_items_sold: false,
            dungeons_item_sold: false,
        }
    }

    /// The API string keys of the selected metrics, in their fixed order.
    pub fn metric_keys(&self) -> (r: Vec<String>)
        ensures
            r.deep_view() == metric_keys_spec(*self),
    {
        let mut keys: Vec<String> = Vec::new();
        if self.minecraft_items_sold {
            keys.push(String::from_str("item_sold_minecraft"));
        }
        if self.minecraft_prepaid_cards_redeemed {
            keys.push(String::from_str("prepaid_card_redeemed_minecraft"));
        }
        if self.cobalt_items_sold {
            keys.push(String::from_str("item_sold_cobalt"));
        }
        if self.cobalt_prepaid_cards_redeemed {
            keys.push(String::from_str("prepaid_card_redeemed_cobalt"));
        }
        if self.scrolls_items_sold {
            keys.push(String::from_str("item_sold_scrolls"));
        }
        if self.dungeons_item_sold {
            keys.push(String::from_str("item_sold_dungeons"));
        }
        proof {
            assert(keys.deep_view() =~~= metric_keys_spec(*self));
        }
        keys
    }
}

/// The body of a statistics request: the string keys of the metrics asked
/// for.
#[derive(Debug, Clone)]
pub struct Payload {
    /// The metric keys the request asks for.
    pub metric_keys: Vec<String>,
}

impl Payload {
    /// Builds the request payload for a selection of metrics.
    pub fn new(keys: Metrics) -> (p: Payload)
        ensures
            p.metric_keys.deep_view() == metric_keys_spec(keys),
    {
        Payload { metric_keys: keys.metric_keys() }
    }
}

} // verus!
