//! Sentinel missions and the product types known for each of them.

use vstd::prelude::*;
use crate::text::{
    all_ascii, ascii_upper, chars_of, contains_exec, contains_seq, join_spec, join_strings,
    strings_view,
};

verus! {

/// The Sentinel satellite missions available on the catalogue.
#[derive(Debug, Clone, Copy, PartialEq, Eq, Structural)]
pub enum Satellite {
    Sentinel1,
    Sentinel2,
    Sentinel3,
    Sentinel5P,
    Sentinel6,
}

/// Upper-case form of a string as `str::to_uppercase` computes it
/// (Unicode's Uppercase mapping, applied character by character).
pub uninterp spec fn uppercase(s: Seq<char>) -> Seq<char>;

/// `str::to_uppercase` from std. The contract names the result `uppercase`
/// and claims what std documents for ASCII text: `a` to `z` become `A` to
/// `Z`, every other ASCII character stays. What it does beyond ASCII is left
/// to the name.
#[verifier::external_body]
fn to_uppercase(s: &str) -> (r: String)
    ensures
        r@ == uppercase(s@),
        all_ascii(s@) ==> r@ == ascii_upper(s@),
{
    s.to_uppercase()
}

impl Satellite {
    /// The collection name used by the catalogue's OData API.
    pub open spec fn collection_name_spec(self) -> Seq<char> {
        match self {
            Satellite::Sentinel1 => "SENTINEL-1"@,
            Satellite::Sentinel2 => "SENTINEL-2"@,
            Satellite::Sentinel3 => "SENTINEL-3"@,
            Satellite::Sentinel5P => "SENTINEL-5P"@,
            Satellite::Sentinel6 => "SENTINEL-6"@,
        }
    }

    /// Returns the collection name string expected by the catalogue's OData API.
    pub fn collection_name(&self) -> (r: &'static str)
        ensures
            r@ == self.collection_name_spec(),
    {
        match self {
            Satellite::Sentinel1 => "SENTINEL-1",
            Satellite::Sentinel2 => "SENTINEL-2",
            Satellite::Sentinel3 => "SENTINEL-3",
            Satellite::Sentinel5P => "SENTINEL-5P",
            Satellite::Sentinel6 => "SENTINEL-6",
        }
    }

    /// The known product types of this mission, in catalogue order.
    pub open spec fn known_products_spec(self) -> Seq<Seq<char>> {
        match self {
            Satellite::Sentinel1 => seq!["GRD"@, "GRDH"@, "GRDM"@, "SLC"@, "OCN"@, "RAW"@],
            Satellite::Sentinel2 => seq!["L1C"@, "L2A"@],
            Satellite::Sentinel3 => seq![
                "OL_1_EFR"@, "OL_1_ERR"@, "OL_2_LFR"@, "OL_2_LRR"@, "OL_2_WFR"@, "OL_2_WRR"@,
                "SL_1_RBT"@, "SL_2_LST"@, "SL_2_WST"@, "SL_2_FRP"@, "SL_2_AOD"@,
                "SR_1_SRA"@, "SR_2_LAN"@, "SR_2_WAT"@,
                "SY_2_SYN"@, "SY_2_V10"@, "SY_2_VG1"@, "SY_2_VGP"@,
            ],
            Satellite::Sentinel5P => seq![
                "L1B_IR_SIR"@, "L1B_IR_UVN"@, "L1B_RA_BD1"@, "L1B_RA_BD2"@, "L1B_RA_BD3"@,
                "L1B_RA_BD4"@, "L1B_RA_BD5"@, "L1B_RA_BD6"@, "L1B_RA_BD7"@, "L1B_RA_BD8"@,
                "L2__AER_AI"@, "L2__AER_LH"@, "L2__CH4___"@, "L2__CLOUD_"@, "L2__CO____"@,
                "L2__HCHO__"@, "L2__NO2___"@, "L2__NP_BD3"@, "L2__NP_BD6"@, "L2__NP_BD7"@,
                "L2__O3____"@, "L2__O3_TCL"@, "L2__SO2___"@,
            ],
            Satellite::Sentinel6 => seq!["MW_2__AMR"@, "P4_1B_LR"@, "P4_2__LR"@],
        }
    }

    /// Returns the known product types for this satellite.
    ///
    /// These are the substrings that appear in scene names on the catalogue
    /// (a Sentinel-2 L2A scene name contains "MSIL2A", so "L2A" is listed).
    pub fn known_products(&self) -> (r: &'static [&'static str])
        ensures
            r@.len() == self.known_products_spec().len(),
            forall|i: int| 0 <= i < r@.len() ==> #[trigger] r@[i]@ == self.known_products_spec()[i],
    {
        match self {
            Satellite::Sentinel1 => &["GRD", "GRDH", "GRDM", "SLC", "OCN", "RAW"],
            Satellite::Sentinel2 => &["L1C", "L2A"],
            Satellite::Sentinel3 => &[
                "OL_1_EFR", "OL_1_ERR", "OL_2_LFR", "OL_2_LRR", "OL_2_WFR", "OL_2_WRR",
                "SL_1_RBT", "SL_2_LST", "SL_2_WST", "SL_2_FRP", "SL_2_AOD",
                "SR_1_SRA", "SR_2_LAN", "SR_2_WAT",
                "SY_2_SYN", "SY_2_V10", "SY_2_VG1", "SY_2_VGP",
            ],
            Satellite::Sentinel5P => &[
                "L1B_IR_SIR", "L1B_IR_UVN", "L1B_RA_BD1", "L1B_RA_BD2", "L1B_RA_BD3",
                "L1B_RA_BD4", "L1B_RA_BD5", "L1B_RA_BD6", "L1B_RA_BD7", "L1B_RA_BD8",
                "L2__AER_AI", "L2__AER_LH", "L2__CH4___", "L2__CLOUD_", "L2__CO____",
                "L2__HCHO__", "L2__NO2___", "L2__NP_BD3", "L2__NP_BD6", "L2__NP_BD7",
                "L2__O3____", "L2__O3_TCL", "L2__SO2___",
            ],
            Satellite::Sentinel6 => &["MW_2__AMR", "P4_1B_LR", "P4_2__LR"],
        }
    }
}

/// The known product types of Sentinel1 are distinct.
proof fn lemma_sentinel1_products_distinct()
    ensures
        forall|i: int, j: int|
            0 <= i < j < Satellite::Sentinel1.known_products_spec().len() ==> Satellite::Sentinel1.known_products_spec()[i]
                != Satellite::Sentinel1.known_products_spec()[j],
{
    let ks = Satellite::Sentinel1.known_products_spec();
    reveal_strlit("GRD");
    reveal_strlit("GRDH");
    reveal_strlit("GRDM");
    reveal_strlit("SLC");
    reveal_strlit("OCN");
    reveal_strlit("RAW");
    assert forall|i: int, j: int| 0 <= i < j < ks.len() implies ks[i] != ks[j] by {
        if i == 0 {
            if j == 1 {
                assert(ks[0].len() != ks[1].len());
            }
            else if j == 2 {
                assert(ks[0].len() != ks[2].len());
            }
            else if j == 3 {
                assert(ks[0][0] != ks[3][0]);
            }
            else if j == 4 {
                assert(ks[0][0] != ks[4][0]);
            }
            else if j == 5 {
                assert(ks[0][0] != ks[5][0]);
            }
        }         else if i == 1 {
            if j == 2 {
                assert(ks[1][3] != ks[2][3]);
            }
            else if j == 3 {
                assert(ks[1].len() != ks[3].len());
            }
            else if j == 4 {
                assert(ks[1].len() != ks[4].len());
            }
            else if j == 5 {
                assert(ks[1].len() != ks[5].len());
            }
        }         else if i == 2 {
            if j == 3 {
                assert(ks[2].len() != ks[3].len());
            }
            else if j == 4 {
                assert(ks[2].len() != ks[4].len());
            }
            else if j == 5 {
                assert(ks[2].len() != ks[5].len());
            }
        }         else if i == 3 {
            if j == 4 {
                assert(ks[3][0] != ks[4][0]);
            }
            else if j == 5 {
                assert(ks[3][0] != ks[5][0]);
            }
        }         else if i == 4 {
            if j == 5 {
                assert(ks[4][0] != ks[5][0]);
            }
        }
    }
}

/// The known product types of Sentinel2 are distinct.
proof fn lemma_sentinel2_products_distinct()
    ensures
        forall|i: int, j: int|
            0 <= i < j < Satellite::Sentinel2.known_products_spec().len() ==> Satellite::Sentinel2.known_products_spec()[i]
                != Satellite::Sentinel2.known_products_spec()[j],
{
    let ks = Satellite::Sentinel2.known_products_spec();
    reveal_strlit("L1C");
    reveal_strlit("L2A");
    assert forall|i: int, j: int| 0 <= i < j < ks.len() implies ks[i] != ks[j] by {
        if i == 0 {
            if j == 1 {
                assert(ks[0][1] != ks[1][1]);
            }
        }
    }
}

/// The known product types of Sentinel3 are distinct.
proof fn lemma_sentinel3_products_distinct()
    ensures
        forall|i: int, j: int|
            0 <= i < j < Satellite::Sentinel3.known_products_spec().len() ==> Satellite::Sentinel3.known_products_spec()[i]
                != Satellite::Sentinel3.known_products_spec()[j],
{
    let ks = Satellite::Sentinel3.known_products_spec();
    reveal_strlit("OL_1_EFR");
    reveal_strlit("OL_1_ERR");
    reveal_strlit("OL_2_LFR");
    reveal_strlit("OL_2_LRR");
    reveal_strlit("OL_2_WFR");
    reveal_strlit("OL_2_WRR");
    reveal_strlit("SL_1_RBT");
    reveal_strlit("SL_2_LST");
    reveal_strlit("SL_2_WST");
    reveal_strlit("SL_2_FRP");
    reveal_strlit("SL_2_AOD");
    reveal_strlit("SR_1_SRA");
    reveal_strlit("SR_2_LAN");
    reveal_strlit("SR_2_WAT");
    reveal_strlit("SY_2_SYN");
    reveal_strlit("SY_2_V10");
    reveal_strlit("SY_2_VG1");
    reveal_strlit("SY_2_VGP");
    assert forall|i: int, j: int| 0 <= i < j < ks.len() implies ks[i] != ks[j] by {
        if i == 0 {
            if j == 1 {
                assert(ks[0][6] != ks[1][6]);
            }
            else if j == 2 {
                assert(ks[0][3] != ks[2][3]);
            }
            else if j == 3 {
                assert(ks[0][3] != ks[3][3]);
            }
            else if j == 4 {
                assert(ks[0][3] != ks[4][3]);
            }
            else if j == 5 {
                assert(ks[0][3] != ks[5][3]);
            }
            else if j == 6 {
                assert(ks[0][0] != ks[6][0]);
            }
            else if j == 7 {
                assert(ks[0][0] != ks[7][0]);
            }
            else if j == 8 {
                assert(ks[0][0] != ks[8][0]);
            }
            else if j == 9 {
                assert(ks[0][0] != ks[9][0]);
            }
            else if j == 10 {
                assert(ks[0][0] != ks[10][0]);
            }
            else if j == 11 {
                assert(ks[0][0] != ks[11][0]);
            }
            else if j == 12 {
                assert(ks[0][0] != ks[12][0]);
            }
            else if j == 13 {
                assert(ks[0][0] != ks[13][0]);
            }
            else if j == 14 {
                assert(ks[0][0] != ks[14][0]);
            }
            else if j == 15 {
                assert(ks[0][0] != ks[15][0]);
            }
            else if j == 16 {
                assert(ks[0][0] != ks[16][0]);
            }
            else if j == 17 {
                assert(ks[0][0] != ks[17][0]);
            }
        }         else if i == 1 {
            if j == 2 {
                assert(ks[1][3] != ks[2][3]);
            }
            else if j == 3 {
                assert(ks[1][3] != ks[3][3]);
            }
            else if j == 4 {
                assert(ks[1][3] != ks[4][3]);
            }
            else if j == 5 {
                assert(ks[1][3] != ks[5][3]);
            }
            else if j == 6 {
                assert(ks[1][0] != ks[6][0]);
            }
            else if j == 7 {
                assert(ks[1][0] != ks[7][0]);
            }
            else if j == 8 {
                assert(ks[1][0] != ks[8][0]);
            }
            else if j == 9 {
                assert(ks[1][0] != ks[9][0]);
            }
            else if j == 10 {
                assert(ks[1][0] != ks[10][0]);
            }
            else if j == 11 {
                assert(ks[1][0] != ks[11][0]);
            }
            else if j == 12 {
                assert(ks[1][0] != ks[12][0]);
            }
            else if j == 13 {
                assert(ks[1][0] != ks[13][0]);
            }
            else if j == 14 {
                assert(ks[1][0] != ks[14][0]);
            }
            else if j == 15 {
                assert(ks[1][0] != ks[15][0]);
            }
            else if j == 16 {
                assert(ks[1][0] != ks[16][0]);
            }
            else if j == 17 {
                assert(ks[1][0] != ks[17][0]);
            }
        }         else if i == 2 {
            if j == 3 {
                assert(ks[2][6] != ks[3][6]);
            }
            else if j == 4 {
                assert(ks[2][5] != ks[4][5]);
            }
            else if j == 5 {
                assert(ks[2][5] != ks[5][5]);
            }
            else if j == 6 {
                assert(ks[2][0] != ks[6][0]);
            }
            else if j == 7 {
                assert(ks[2][0] != ks[7][0]);
            }
            else if j == 8 {
                assert(ks[2][0] != ks[8][0]);
            }
            else if j == 9 {
                assert(ks[2][0] != ks[9][0]);
            }
            else if j == 10 {
                assert(ks[2][0] != ks[10][0]);
            }
            else if j == 11 {
                assert(ks[2][0] != ks[11][0]);
            }
            else if j == 12 {
                assert(ks[2][0] != ks[12][0]);
            }
            else if j == 13 {
                assert(ks[2][0] != ks[13][0]);
            }
            else if j == 14 {
                assert(ks[2][0] != ks[14][0]);
            }
            else if j == 15 {
                assert(ks[2][0] != ks[15][0]);
            }
            else if j == 16 {
                assert(ks[2][0] != ks[16][0]);
            }
            else if j == 17 {
                assert(ks[2][0] != ks[17][0]);
            }
        }         else if i == 3 {
            if j == 4 {
                assert(ks[3][5] != ks[4][5]);
            }
            else if j == 5 {
                assert(ks[3][5] != ks[5][5]);
            }
            else if j == 6 {
                assert(ks[3][0] != ks[6][0]);
            }
            else if j == 7 {
                assert(ks[3][0] != ks[7][0]);
            }
            else if j == 8 {
                assert(ks[3][0] != ks[8][0]);
            }
            else if j == 9 {
                assert(ks[3][0] != ks[9][0]);
            }
            else if j == 10 {
                assert(ks[3][0] != ks[10][0]);
            }
            else if j == 11 {
                assert(ks[3][0] != ks[11][0]);
            }
            else if j == 12 {
                assert(ks[3][0] != ks[12][0]);
            }
            else if j == 13 {
                assert(ks[3][0] != ks[13][0]);
            }
            else if j == 14 {
                assert(ks[3][0] != ks[14][0]);
            }
            else if j == 15 {
                assert(ks[3][0] != ks[15][0]);
            }
            else if j == 16 {
                assert(ks[3][0] != ks[16][0]);
            }
            else if j == 17 {
                assert(ks[3][0] != ks[17][0]);
            }
        }         else if i == 4 {
            if j == 5 {
                assert(ks[4][6] != ks[5][6]);
            }
            else if j == 6 {
                assert(ks[4][0] != ks[6][0]);
            }
            else if j == 7 {
                assert(ks[4][0] != ks[7][0]);
            }
            else if j == 8 {
                assert(ks[4][0] != ks[8][0]);
            }
            else if j == 9 {
                assert(ks[4][0] != ks[9][0]);
            }
            else if j == 10 {
                assert(ks[4][0] != ks[10][0]);
            }
            else if j == 11 {
                assert(ks[4][0] != ks[11][0]);
            }
            else if j == 12 {
                assert(ks[4][0] != ks[12][0]);
            }
            else if j == 13 {
                assert(ks[4][0] != ks[13][0]);
            }
            else if j == 14 {
                assert(ks[4][0] != ks[14][0]);
            }
            else if j == 15 {
                assert(ks[4][0] != ks[15][0]);
            }
            else if j == 16 {
                assert(ks[4][0] != ks[16][0]);
            }
            else if j == 17 {
                assert(ks[4][0] != ks[17][0]);
            }
        }         else if i == 5 {
            if j == 6 {
                assert(ks[5][0] != ks[6][0]);
            }
            else if j == 7 {
                assert(ks[5][0] != ks[7][0]);
            }
            else if j == 8 {
                assert(ks[5][0] != ks[8][0]);
            }
            else if j == 9 {
                assert(ks[5][0] != ks[9][0]);
            }
            else if j == 10 {
                assert(ks[5][0] != ks[10][0]);
            }
            else if j == 11 {
                assert(ks[5][0] != ks[11][0]);
            }
            else if j == 12 {
                assert(ks[5][0] != ks[12][0]);
            }
            else if j == 13 {
                assert(ks[5][0] != ks[13][0]);
            }
            else if j == 14 {
                assert(ks[5][0] != ks[14][0]);
            }
            else if j == 15 {
                assert(ks[5][0] != ks[15][0]);
            }
            else if j == 16 {
                assert(ks[5][0] != ks[16][0]);
            }
            else if j == 17 {
                assert(ks[5][0] != ks[17][0]);
            }
        }         else if i == 6 {
            if j == 7 {
                assert(ks[6][3] != ks[7][3]);
            }
            else if j == 8 {
                assert(ks[6][3] != ks[8][3]);
            }
            else if j == 9 {
                assert(ks[6][3] != ks[9][3]);
            }
            else if j == 10 {
                assert(ks[6][3] != ks[10][3]);
            }
            else if j == 11 {
                assert(ks[6][1] != ks[11][1]);
            }
            else if j == 12 {
                assert(ks[6][1] != ks[12][1]);
            }
            else if j == 13 {
                assert(ks[6][1] != ks[13][1]);
            }
            else if j == 14 {
                assert(ks[6][1] != ks[14][1]);
            }
            else if j == 15 {
                assert(ks[6][1] != ks[15][1]);
            }
            else if j == 16 {
                assert(ks[6][1] != ks[16][1]);
            }
            else if j == 17 {
                assert(ks[6][1] != ks[17][1]);
            }
        }         else if i == 7 {
            if j == 8 {
                assert(ks[7][5] != ks[8][5]);
            }
            else if j == 9 {
                assert(ks[7][5] != ks[9][5]);
            }
            else if j == 10 {
                assert(ks[7][5] != ks[10][5]);
            }
            else if j == 11 {
                assert(ks[7][1] != ks[11][1]);
            }
            else if j == 12 {
                assert(ks[7][1] != ks[12][1]);
            }
            else if j == 13 {
                assert(ks[7][1] != ks[13][1]);
            }
            else if j == 14 {
                assert(ks[7][1] != ks[14][1]);
            }
            else if j == 15 {
                assert(ks[7][1] != ks[15][1]);
            }
            else if j == 16 {
                assert(ks[7][1] != ks[16][1]);
            }
            else if j == 17 {
                assert(ks[7][1] != ks[17][1]);
            }
        }         else if i == 8 {
            if j == 9 {
                assert(ks[8][5] != ks[9][5]);
            }
            else if j == 10 {
                assert(ks[8][5] != ks[10][5]);
            }
            else if j == 11 {
                assert(ks[8][1] != ks[11][1]);
            }
            else if j == 12 {
                assert(ks[8][1] != ks[12][1]);
            }
            else if j == 13 {
                assert(ks[8][1] != ks[13][1]);
            }
            else if j == 14 {
                assert(ks[8][1] != ks[14][1]);
            }
            else if j == 15 {
                assert(ks[8][1] != ks[15][1]);
            }
            else if j == 16 {
                assert(ks[8][1] != ks[16][1]);
            }
            else if j == 17 {
                assert(ks[8][1] != ks[17][1]);
            }
        }         else if i == 9 {
            if j == 10 {
                assert(ks[9][5] != ks[10][5]);
            }
            else if j == 11 {
                assert(ks[9][1] != ks[11][1]);
            }
            else if j == 12 {
                assert(ks[9][1] != ks[12][1]);
            }
            else if j == 13 {
                assert(ks[9][1] != ks[13][1]);
            }
            else if j == 14 {
                assert(ks[9][1] != ks[14][1]);
            }
            else if j == 15 {
                assert(ks[9][1] != ks[15][1]);
            }
            else if j == 16 {
                assert(ks[9][1] != ks[16][1]);
            }
            else if j == 17 {
                assert(ks[9][1] != ks[17][1]);
            }
        }         else if i == 10 {
            if j == 11 {
                assert(ks[10][1] != ks[11][1]);
            }
            else if j == 12 {
                assert(ks[10][1] != ks[12][1]);
            }
            else if j == 13 {
                assert(ks[10][1] != ks[13][1]);
            }
            else if j == 14 {
                assert(ks[10][1] != ks[14][1]);
            }
            else if j == 15 {
                assert(ks[10][1] != ks[15][1]);
            }
            else if j == 16 {
                assert(ks[10][1] != ks[16][1]);
            }
            else if j == 17 {
                assert(ks[10][1] != ks[17][1]);
            }
        }         else if i == 11 {
            if j == 12 {
                assert(ks[11][3] != ks[12][3]);
            }
            else if j == 13 {
                assert(ks[11][3] != ks[13][3]);
            }
            else if j == 14 {
                assert(ks[11][1] != ks[14][1]);
            }
            else if j == 15 {
                assert(ks[11][1] != ks[15][1]);
            }
            else if j == 16 {
                assert(ks[11][1] != ks[16][1]);
            }
            else if j == 17 {
                assert(ks[11][1] != ks[17][1]);
            }
        }         else if i == 12 {
            if j == 13 {
                assert(ks[12][5] != ks[13][5]);
            }
            else if j == 14 {
                assert(ks[12][1] != ks[14][1]);
            }
            else if j == 15 {
                assert(ks[12][1] != ks[15][1]);
            }
            else if j == 16 {
                assert(ks[12][1] != ks[16][1]);
            }
            else if j == 17 {
                assert(ks[12][1] != ks[17][1]);
            }
        }         else if i == 13 {
            if j == 14 {
                assert(ks[13][1] != ks[14][1]);
            }
            else if j == 15 {
                assert(ks[13][1] != ks[15][1]);
            }
            else if j == 16 {
                assert(ks[13][1] != ks[16][1]);
            }
            else if j == 17 {
                assert(ks[13][1] != ks[17][1]);
            }
        }         else if i == 14 {
            if j == 15 {
                assert(ks[14][5] != ks[15][5]);
            }
            else if j == 16 {
                assert(ks[14][5] != ks[16][5]);
            }
            else if j == 17 {
                assert(ks[14][5] != ks[17][5]);
            }
        }         else if i == 15 {
            if j == 16 {
                assert(ks[15][6] != ks[16][6]);
            }
            else if j == 17 {
                assert(ks[15][6] != ks[17][6]);
            }
        }         else if i == 16 {
            if j == 17 {
                assert(ks[16][7] != ks[17][7]);
            }
        }
    }
}

/// The known product types of Sentinel5P are distinct.
proof fn lemma_sentinel5p_products_distinct()
    ensures
        forall|i: int, j: int|
            0 <= i < j < Satellite::Sentinel5P.known_products_spec().len() ==> Satellite::Sentinel5P.known_products_spec()[i]
                != Satellite::Sentinel5P.known_products_spec()[j],
{
    let ks = Satellite::Sentinel5P.known_products_spec();
    reveal_strlit("L1B_IR_SIR");
    reveal_strlit("L1B_IR_UVN");
    reveal_strlit("L1B_RA_BD1");
    reveal_strlit("L1B_RA_BD2");
    reveal_strlit("L1B_RA_BD3");
    reveal_strlit("L1B_RA_BD4");
    reveal_strlit("L1B_RA_BD5");
    reveal_strlit("L1B_RA_BD6");
    reveal_strlit("L1B_RA_BD7");
    reveal_strlit("L1B_RA_BD8");
    reveal_strlit("L2__AER_AI");
    reveal_strlit("L2__AER_LH");
    reveal_strlit("L2__CH4___");
    reveal_strlit("L2__CLOUD_");
    reveal_strlit("L2__CO____");
    reveal_strlit("L2__HCHO__");
    reveal_strlit("L2__NO2___");
    reveal_strlit("L2__NP_BD3");
    reveal_strlit("L2__NP_BD6");
    reveal_strlit("L2__NP_BD7");
    reveal_strlit("L2__O3____");
    reveal_strlit("L2__O3_TCL");
    reveal_strlit("L2__SO2___");
    assert forall|i: int, j: int| 0 <= i < j < ks.len() implies ks[i] != ks[j] by {
        if i == 0 {
            if j == 1 {
                assert(ks[0][7] != ks[1][7]);
            }
            else if j == 2 {
                assert(ks[0][4] != ks[2][4]);
            }
            else if j == 3 {
                assert(ks[0][4] != ks[3][4]);
            }
            else if j == 4 {
                assert(ks[0][4] != ks[4][4]);
            }
            else if j == 5 {
                assert(ks[0][4] != ks[5][4]);
            }
            else if j == 6 {
                assert(ks[0][4] != ks[6][4]);
            }
            else if j == 7 {
                assert(ks[0][4] != ks[7][4]);
            }
            else if j == 8 {
                assert(ks[0][4] != ks[8][4]);
            }
            else if j == 9 {
                assert(ks[0][4] != ks[9][4]);
            }
            else if j == 10 {
                assert(ks[0][1] != ks[10][1]);
            }
            else if j == 11 {
                assert(ks[0][1] != ks[11][1]);
            }
            else if j == 12 {
                assert(ks[0][1] != ks[12][1]);
            }
            else if j == 13 {
                assert(ks[0][1] != ks[13][1]);
            }
            else if j == 14 {
                assert(ks[0][1] != ks[14][1]);
            }
            else if j == 15 {
                assert(ks[0][1] != ks[15][1]);
            }
            else if j == 16 {
                assert(ks[0][1] != ks[16][1]);
            }
            else if j == 17 {
                assert(ks[0][1] != ks[17][1]);
            }
            else if j == 18 {
                assert(ks[0][1] != ks[18][1]);
            }
            else if j == 19 {
                assert(ks[0][1] != ks[19][1]);
            }
            else if j == 20 {
                assert(ks[0][1] != ks[20][1]);
            }
            else if j == 21 {
                assert(ks[0][1] != ks[21][1]);
            }
            else if j == 22 {
                assert(ks[0][1] != ks[22][1]);
            }
        }         else if i == 1 {
            if j == 2 {
                assert(ks[1][4] != ks[2][4]);
            }
            else if j == 3 {
                assert(ks[1][4] != ks[3][4]);
            }
            else if j == 4 {
                assert(ks[1][4] != ks[4][4]);
            }
            else if j == 5 {
                assert(ks[1][4] != ks[5][4]);
            }
            else if j == 6 {
                assert(ks[1][4] != ks[6][4]);
            }
            else if j == 7 {
                assert(ks[1][4] != ks[7][4]);
            }
            else if j == 8 {
                assert(ks[1][4] != ks[8][4]);
            }
            else if j == 9 {
                assert(ks[1][4] != ks[9][4]);
            }
            else if j == 10 {
                assert(ks[1][1] != ks[10][1]);
            }
            else if j == 11 {
                assert(ks[1][1] != ks[11][1]);
            }
            else if j == 12 {
                assert(ks[1][1] != ks[12][1]);
            }
            else if j == 13 {
                assert(ks[1][1] != ks[13][1]);
            }
            else if j == 14 {
                assert(ks[1][1] != ks[14][1]);
            }
            else if j == 15 {
                assert(ks[1][1] != ks[15][1]);
            }
            else if j == 16 {
                assert(ks[1][1] != ks[16][1]);
            }
            else if j == 17 {
                assert(ks[1][1] != ks[17][1]);
            }
            else if j == 18 {
                assert(ks[1][1] != ks[18][1]);
            }
            else if j == 19 {
                assert(ks[1][1] != ks[19][1]);
            }
            else if j == 20 {
                assert(ks[1][1] != ks[20][1]);
            }
            else if j == 21 {
                assert(ks[1][1] != ks[21][1]);
            }
            else if j == 22 {
                assert(ks[1][1] != ks[22][1]);
            }
        }         else if i == 2 {
            if j == 3 {
                assert(ks[2][9] != ks[3][9]);
            }
            else if j == 4 {
                assert(ks[2][9] != ks[4][9]);
            }
            else if j == 5 {
                assert(ks[2][9] != ks[5][9]);
            }
            else if j == 6 {
                assert(ks[2][9] != ks[6][9]);
            }
            else if j == 7 {
                assert(ks[2][9] != ks[7][9]);
            }
            else if j == 8 {
                assert(ks[2][9] != ks[8][9]);
            }
            else if j == 9 {
                assert(ks[2][9] != ks[9][9]);
            }
            else if j == 10 {
                assert(ks[2][1] != ks[10][1]);
            }
            else if j == 11 {
                assert(ks[2][1] != ks[11][1]);
            }
            else if j == 12 {
                assert(ks[2][1] != ks[12][1]);
            }
            else if j == 13 {
                assert(ks[2][1] != ks[13][1]);
            }
            else if j == 14 {
                assert(ks[2][1] != ks[14][1]);
            }
            else if j == 15 {
                assert(ks[2][1] != ks[15][1]);
            }
            else if j == 16 {
                assert(ks[2][1] != ks[16][1]);
            }
            else if j == 17 {
                assert(ks[2][1] != ks[17][1]);
            }
            else if j == 18 {
                assert(ks[2][1] != ks[18][1]);
            }
            else if j == 19 {
                assert(ks[2][1] != ks[19][1]);
            }
            else if j == 20 {
                assert(ks[2][1] != ks[20][1]);
            }
            else if j == 21 {
                assert(ks[2][1] != ks[21][1]);
            }
            else if j == 22 {
                assert(ks[2][1] != ks[22][1]);
            }
        }         else if i == 3 {
            if j == 4 {
                assert(ks[3][9] != ks[4][9]);
            }
            else if j == 5 {
                assert(ks[3][9] != ks[5][9]);
            }
            else if j == 6 {
                assert(ks[3][9] != ks[6][9]);
            }
            else if j == 7 {
                assert(ks[3][9] != ks[7][9]);
            }
            else if j == 8 {
                assert(ks[3][9] != ks[8][9]);
            }
            else if j == 9 {
                assert(ks[3][9] != ks[9][9]);
            }
            else if j == 10 {
                assert(ks[3][1] != ks[10][1]);
            }
            else if j == 11 {
                assert(ks[3][1] != ks[11][1]);
            }
            else if j == 12 {
                assert(ks[3][1] != ks[12][1]);
            }
            else if j == 13 {
                assert(ks[3][1] != ks[13][1]);
            }
            else if j == 14 {
                assert(ks[3][1] != ks[14][1]);
            }
            else if j == 15 {
                assert(ks[3][1] != ks[15][1]);
            }
            else if j == 16 {
                assert(ks[3][1] != ks[16][1]);
            }
            else if j == 17 {
                assert(ks[3][1] != ks[17][1]);
            }
            else if j == 18 {
                assert(ks[3][1] != ks[18][1]);
            }
            else if j == 19 {
                assert(ks[3][1] != ks[19][1]);
            }
            else if j == 20 {
                assert(ks[3][1] != ks[20][1]);
            }
            else if j == 21 {
                assert(ks[3][1] != ks[21][1]);
            }
            else if j == 22 {
                assert(ks[3][1] != ks[22][1]);
            }
        }         else if i == 4 {
            if j == 5 {
                assert(ks[4][9] != ks[5][9]);
            }
            else if j == 6 {
                assert(ks[4][9] != ks[6][9]);
            }
            else if j == 7 {
                assert(ks[4][9] != ks[7][9]);
            }
            else if j == 8 {
                assert(ks[4][9] != ks[8][9]);
            }
            else if j == 9 {
                assert(ks[4][9] != ks[9][9]);
            }
            else if j == 10 {
                assert(ks[4][1] != ks[10][1]);
            }
            else if j == 11 {
                assert(ks[4][1] != ks[11][1]);
            }
            else if j == 12 {
                assert(ks[4][1] != ks[12][1]);
            }
            else if j == 13 {
                assert(ks[4][1] != ks[13][1]);
            }
            else if j == 14 {
                assert(ks[4][1] != ks[14][1]);
            }
            else if j == 15 {
                assert(ks[4][1] != ks[15][1]);
            }
            else if j == 16 {
                assert(ks[4][1] != ks[16][1]);
            }
            else if j == 17 {
                assert(ks[4][1] != ks[17][1]);
            }
            else if j == 18 {
                assert(ks[4][1] != ks[18][1]);
            }
            else if j == 19 {
                assert(ks[4][1] != ks[19][1]);
            }
            else if j == 20 {
                assert(ks[4][1] != ks[20][1]);
            }
            else if j == 21 {
                assert(ks[4][1] != ks[21][1]);
            }
            else if j == 22 {
                assert(ks[4][1] != ks[22][1]);
            }
        }         else if i == 5 {
            if j == 6 {
                assert(ks[5][9] != ks[6][9]);
            }
            else if j == 7 {
                assert(ks[5][9] != ks[7][9]);
            }
            else if j == 8 {
                assert(ks[5][9] != ks[8][9]);
            }
            else if j == 9 {
                assert(ks[5][9] != ks[9][9]);
            }
            else if j == 10 {
                assert(ks[5][1] != ks[10][1]);
            }
            else if j == 11 {
                assert(ks[5][1] != ks[11][1]);
            }
            else if j == 12 {
                assert(ks[5][1] != ks[12][1]);
            }
            else if j == 13 {
                assert(ks[5][1] != ks[13][1]);
            }
            else if j == 14 {
                assert(ks[5][1] != ks[14][1]);
            }
            else if j == 15 {
                assert(ks[5][1] != ks[15][1]);
            }
            else if j == 16 {
                assert(ks[5][1] != ks[16][1]);
            }
            else if j == 17 {
                assert(ks[5][1] != ks[17][1]);
            }
            else if j == 18 {
                assert(ks[5][1] != ks[18][1]);
            }
            else if j == 19 {
                assert(ks[5][1] != ks[19][1]);
            }
            else if j == 20 {
                assert(ks[5][1] != ks[20][1]);
            }
            else if j == 21 {
                assert(ks[5][1] != ks[21][1]);
            }
            else if j == 22 {
                assert(ks[5][1] != ks[22][1]);
            }
        }         else if i == 6 {
            if j == 7 {
                assert(ks[6][9] != ks[7][9]);
            }
            else if j == 8 {
                assert(ks[6][9] != ks[8][9]);
            }
            else if j == 9 {
                assert(ks[6][9] != ks[9][9]);
            }
            else if j == 10 {
                assert(ks[6][1] != ks[10][1]);
            }
            else if j == 11 {
                assert(ks[6][1] != ks[11][1]);
            }
            else if j == 12 {
                assert(ks[6][1] != ks[12][1]);
            }
            else if j == 13 {
                assert(ks[6][1] != ks[13][1]);
            }
            else if j == 14 {
                assert(ks[6][1] != ks[14][1]);
            }
            else if j == 15 {
                assert(ks[6][1] != ks[15][1]);
            }
            else if j == 16 {
                assert(ks[6][1] != ks[16][1]);
            }
            else if j == 17 {
                assert(ks[6][1] != ks[17][1]);
            }
            else if j == 18 {
                assert(ks[6][1] != ks[18][1]);
            }
            else if j == 19 {
                assert(ks[6][1] != ks[19][1]);
            }
            else if j == 20 {
                assert(ks[6][1] != ks[20][1]);
            }
            else if j == 21 {
                assert(ks[6][1] != ks[21][1]);
            }
            else if j == 22 {
                assert(ks[6][1] != ks[22][1]);
            }
        }         else if i == 7 {
            if j == 8 {
                assert(ks[7][9] != ks[8][9]);
            }
            else if j == 9 {
                assert(ks[7][9] != ks[9][9]);
            }
            else if j == 10 {
                assert(ks[7][1] != ks[10][1]);
            }
            else if j == 11 {
                assert(ks[7][1] != ks[11][1]);
            }
            else if j == 12 {
                assert(ks[7][1] != ks[12][1]);
            }
            else if j == 13 {
                assert(ks[7][1] != ks[13][1]);
            }
            else if j == 14 {
                assert(ks[7][1] != ks[14][1]);
            }
            else if j == 15 {
                assert(ks[7][1] != ks[15][1]);
            }
            else if j == 16 {
                assert(ks[7][1] != ks[16][1]);
            }
            else if j == 17 {
                assert(ks[7][1] != ks[17][1]);
            }
            else if j == 18 {
                assert(ks[7][1] != ks[18][1]);
            }
            else if j == 19 {
                assert(ks[7][1] != ks[19][1]);
            }
            else if j == 20 {
                assert(ks[7][1] != ks[20][1]);
            }
            else if j == 21 {
                assert(ks[7][1] != ks[21][1]);
            }
            else if j == 22 {
                assert(ks[7][1] != ks[22][1]);
            }
        }         else if i == 8 {
            if j == 9 {
                assert(ks[8][9] != ks[9][9]);
            }
            else if j == 10 {
                assert(ks[8][1] != ks[10][1]);
            }
            else if j == 11 {
                assert(ks[8][1] != ks[11][1]);
            }
            else if j == 12 {
                assert(ks[8][1] != ks[12][1]);
            }
            else if j == 13 {
                assert(ks[8][1] != ks[13][1]);
            }
            else if j == 14 {
                assert(ks[8][1] != ks[14][1]);
            }
            else if j == 15 {
                assert(ks[8][1] != ks[15][1]);
            }
            else if j == 16 {
                assert(ks[8][1] != ks[16][1]);
            }
            else if j == 17 {
                assert(ks[8][1] != ks[17][1]);
            }
            else if j == 18 {
                assert(ks[8][1] != ks[18][1]);
            }
            else if j == 19 {
                assert(ks[8][1] != ks[19][1]);
            }
            else if j == 20 {
                assert(ks[8][1] != ks[20][1]);
            }
            else if j == 21 {
                assert(ks[8][1] != ks[21][1]);
            }
            else if j == 22 {
                assert(ks[8][1] != ks[22][1]);
            }
        }         else if i == 9 {
            if j == 10 {
                assert(ks[9][1] != ks[10][1]);
            }
            else if j == 11 {
                assert(ks[9][1] != ks[11][1]);
            }
            else if j == 12 {
                assert(ks[9][1] != ks[12][1]);
            }
            else if j == 13 {
                assert(ks[9][1] != ks[13][1]);
            }
            else if j == 14 {
                assert(ks[9][1] != ks[14][1]);
            }
            else if j == 15 {
                assert(ks[9][1] != ks[15][1]);
            }
            else if j == 16 {
                assert(ks[9][1] != ks[16][1]);
            }
            else if j == 17 {
                assert(ks[9][1] != ks[17][1]);
            }
            else if j == 18 {
                assert(ks[9][1] != ks[18][1]);
            }
            else if j == 19 {
                assert(ks[9][1] != ks[19][1]);
            }
            else if j == 20 {
                assert(ks[9][1] != ks[20][1]);
            }
            else if j == 21 {
                assert(ks[9][1] != ks[21][1]);
            }
            else if j == 22 {
                assert(ks[9][1] != ks[22][1]);
            }
        }         else if i == 10 {
            if j == 11 {
                assert(ks[10][8] != ks[11][8]);
            }
            else if j == 12 {
                assert(ks[10][4] != ks[12][4]);
            }
            else if j == 13 {
                assert(ks[10][4] != ks[13][4]);
            }
            else if j == 14 {
                assert(ks[10][4] != ks[14][4]);
            }
            else if j == 15 {
                assert(ks[10][4] != ks[15][4]);
            }
            else if j == 16 {
                assert(ks[10][4] != ks[16][4]);
            }
            else if j == 17 {
                assert(ks[10][4] != ks[17][4]);
            }
            else if j == 18 {
                assert(ks[10][4] != ks[18][4]);
            }
            else if j == 19 {
                assert(ks[10][4] != ks[19][4]);
            }
            else if j == 20 {
                assert(ks[10][4] != ks[20][4]);
            }
            else if j == 21 {
                assert(ks[10][4] != ks[21][4]);
            }
            else if j == 22 {
                assert(ks[10][4] != ks[22][4]);
            }
        }         else if i == 11 {
            if j == 12 {
                assert(ks[11][4] != ks[12][4]);
            }
            else if j == 13 {
                assert(ks[11][4] != ks[13][4]);
            }
            else if j == 14 {
                assert(ks[11][4] != ks[14][4]);
            }
            else if j == 15 {
                assert(ks[11][4] != ks[15][4]);
            }
            else if j == 16 {
                assert(ks[11][4] != ks[16][4]);
            }
            else if j == 17 {
                assert(ks[11][4] != ks[17][4]);
            }
            else if j == 18 {
                assert(ks[11][4] != ks[18][4]);
            }
            else if j == 19 {
                assert(ks[11][4] != ks[19][4]);
            }
            else if j == 20 {
                assert(ks[11][4] != ks[20][4]);
            }
            else if j == 21 {
                assert(ks[11][4] != ks[21][4]);
            }
            else if j == 22 {
                assert(ks[11][4] != ks[22][4]);
            }
        }         else if i == 12 {
            if j == 13 {
                assert(ks[12][5] != ks[13][5]);
            }
            else if j == 14 {
                assert(ks[12][5] != ks[14][5]);
            }
            else if j == 15 {
                assert(ks[12][4] != ks[15][4]);
            }
            else if j == 16 {
                assert(ks[12][4] != ks[16][4]);
            }
            else if j == 17 {
                assert(ks[12][4] != ks[17][4]);
            }
            else if j == 18 {
                assert(ks[12][4] != ks[18][4]);
            }
            else if j == 19 {
                assert(ks[12][4] != ks[19][4]);
            }
            else if j == 20 {
                assert(ks[12][4] != ks[20][4]);
            }
            else if j == 21 {
                assert(ks[12][4] != ks[21][4]);
            }
            else if j == 22 {
                assert(ks[12][4] != ks[22][4]);
            }
        }         else if i == 13 {
            if j == 14 {
                assert(ks[13][5] != ks[14][5]);
            }
            else if j == 15 {
                assert(ks[13][4] != ks[15][4]);
            }
            else if j == 16 {
                assert(ks[13][4] != ks[16][4]);
            }
            else if j == 17 {
                assert(ks[13][4] != ks[17][4]);
            }
            else if j == 18 {
                assert(ks[13][4] != ks[18][4]);
            }
            else if j == 19 {
                assert(ks[13][4] != ks[19][4]);
            }
            else if j == 20 {
                assert(ks[13][4] != ks[20][4]);
            }
            else if j == 21 {
                assert(ks[13][4] != ks[21][4]);
            }
            else if j == 22 {
                assert(ks[13][4] != ks[22][4]);
            }
        }         else if i == 14 {
            if j == 15 {
                assert(ks[14][4] != ks[15][4]);
            }
            else if j == 16 {
                assert(ks[14][4] != ks[16][4]);
            }
            else if j == 17 {
                assert(ks[14][4] != ks[17][4]);
            }
            else if j == 18 {
                assert(ks[14][4] != ks[18][4]);
            }
            else if j == 19 {
                assert(ks[14][4] != ks[19][4]);
            }
            else if j == 20 {
                assert(ks[14][4] != ks[20][4]);
            }
            else if j == 21 {
                assert(ks[14][4] != ks[21][4]);
            }
            else if j == 22 {
                assert(ks[14][4] != ks[22][4]);
            }
        }         else if i == 15 {
            if j == 16 {
                assert(ks[15][4] != ks[16][4]);
            }
            else if j == 17 {
                assert(ks[15][4] != ks[17][4]);
            }
            else if j == 18 {
                assert(ks[15][4] != ks[18][4]);
            }
            else if j == 19 {
                assert(ks[15][4] != ks[19][4]);
            }
            else if j == 20 {
                assert(ks[15][4] != ks[20][4]);
            }
            else if j == 21 {
                assert(ks[15][4] != ks[21][4]);
            }
            else if j == 22 {
                assert(ks[15][4] != ks[22][4]);
            }
        }         else if i == 16 {
            if j == 17 {
                assert(ks[16][5] != ks[17][5]);
            }
            else if j == 18 {
                assert(ks[16][5] != ks[18][5]);
            }
            else if j == 19 {
                assert(ks[16][5] != ks[19][5]);
            }
            else if j == 20 {
                assert(ks[16][4] != ks[20][4]);
            }
            else if j == 21 {
                assert(ks[16][4] != ks[21][4]);
            }
            else if j == 22 {
                assert(ks[16][4] != ks[22][4]);
            }
        }         else if i == 17 {
            if j == 18 {
                assert(ks[17][9] != ks[18][9]);
            }
            else if j == 19 {
                assert(ks[17][9] != ks[19][9]);
            }
            else if j == 20 {
                assert(ks[17][4] != ks[20][4]);
            }
            else if j == 21 {
                assert(ks[17][4] != ks[21][4]);
            }
            else if j == 22 {
                assert(ks[17][4] != ks[22][4]);
            }
        }         else if i == 18 {
            if j == 19 {
                assert(ks[18][9] != ks[19][9]);
            }
            else if j == 20 {
                assert(ks[18][4] != ks[20][4]);
            }
            else if j == 21 {
                assert(ks[18][4] != ks[21][4]);
            }
            else if j == 22 {
                assert(ks[18][4] != ks[22][4]);
            }
        }         else if i == 19 {
            if j == 20 {
                assert(ks[19][4] != ks[20][4]);
            }
            else if j == 21 {
                assert(ks[19][4] != ks[21][4]);
            }
            else if j == 22 {
                assert(ks[19][4] != ks[22][4]);
            }
        }         else if i == 20 {
            if j == 21 {
                assert(ks[20][7] != ks[21][7]);
            }
            else if j == 22 {
                assert(ks[20][4] != ks[22][4]);
            }
        }         else if i == 21 {
            if j == 22 {
                assert(ks[21][4] != ks[22][4]);
            }
        }
    }
}

/// The known product types of Sentinel6 are distinct.
proof fn lemma_sentinel6_products_distinct()
    ensures
        forall|i: int, j: int|
            0 <= i < j < Satellite::Sentinel6.known_products_spec().len() ==> Satellite::Sentinel6.known_products_spec()[i]
                != Satellite::Sentinel6.known_products_spec()[j],
{
    let ks = Satellite::Sentinel6.known_products_spec();
    reveal_strlit("MW_2__AMR");
    reveal_strlit("P4_1B_LR");
    reveal_strlit("P4_2__LR");
    assert forall|i: int, j: int| 0 <= i < j < ks.len() implies ks[i] != ks[j] by {
        if i == 0 {
            if j == 1 {
                assert(ks[0].len() != ks[1].len());
            }
            else if j == 2 {
                assert(ks[0].len() != ks[2].len());
            }
        }         else if i == 1 {
            if j == 2 {
                assert(ks[1][3] != ks[2][3]);
            }
        }
    }
}

/// Every mission has known product types; they are distinct, not empty,
/// ASCII, and their own upper case.
pub proof fn known_products_are_upper_ascii(sat: Satellite)
    ensures
        sat.known_products_spec().len() > 0,
        forall|i: int|
            0 <= i < sat.known_products_spec().len() ==> #[trigger] sat.known_products_spec()[i].len()
                > 0 && all_ascii(sat.known_products_spec()[i]) && ascii_upper(
                sat.known_products_spec()[i],
            ) == sat.known_products_spec()[i],
        forall|i: int, j: int|
            0 <= i < j < sat.known_products_spec().len() ==> sat.known_products_spec()[i]
                != sat.known_products_spec()[j],
{
    lemma_sentinel1_products_distinct();
    lemma_sentinel2_products_distinct();
    lemma_sentinel3_products_distinct();
    lemma_sentinel5p_products_distinct();
    lemma_sentinel6_products_distinct();
    match sat {
        Satellite::Sentinel1 => {
            reveal_strlit("GRD");
            reveal_strlit("GRDH");
            reveal_strlit("GRDM");
            reveal_strlit("SLC");
            reveal_strlit("OCN");
            reveal_strlit("RAW");
            let ks = sat.known_products_spec();
            assert forall|i: int| 0 <= i < ks.len() implies #[trigger] ks[i].len() > 0 && all_ascii(ks[i])
                && ascii_upper(ks[i]) == ks[i] by {
                assert(ascii_upper(ks[i]) =~= ks[i]);
            }
        },
        Satellite::Sentinel2 => {
            reveal_strlit("L1C");
            reveal_strlit("L2A");
            let ks = sat.known_products_spec();
            assert forall|i: int| 0 <= i < ks.len() implies #[trigger] ks[i].len() > 0 && all_ascii(ks[i])
                && ascii_upper(ks[i]) == ks[i] by {
                assert(ascii_upper(ks[i]) =~= ks[i]);
            }
        },
        Satellite::Sentinel3 => {
            reveal_strlit("OL_1_EFR");
            reveal_strlit("OL_1_ERR");
            reveal_strlit("OL_2_LFR");
            reveal_strlit("OL_2_LRR");
            reveal_strlit("OL_2_WFR");
            reveal_strlit("OL_2_WRR");
            reveal_strlit("SL_1_RBT");
            reveal_strlit("SL_2_LST");
            reveal_strlit("SL_2_WST");
            reveal_strlit("SL_2_FRP");
            reveal_strlit("SL_2_AOD");
            reveal_strlit("SR_1_SRA");
            reveal_strlit("SR_2_LAN");
            reveal_strlit("SR_2_WAT");
            reveal_strlit("SY_2_SYN");
            reveal_strlit("SY_2_V10");
            reveal_strlit("SY_2_VG1");
            reveal_strlit("SY_2_VGP");
            let ks = sat.known_products_spec();
            assert forall|i: int| 0 <= i < ks.len() implies #[trigger] ks[i].len() > 0 && all_ascii(ks[i])
                && ascii_upper(ks[i]) == ks[i] by {
                assert(ascii_upper(ks[i]) =~= ks[i]);
            }
        },
        Satellite::Sentinel5P => {
            reveal_strlit("L1B_IR_SIR");
            reveal_strlit("L1B_IR_UVN");
            reveal_strlit("L1B_RA_BD1");
            reveal_strlit("L1B_RA_BD2");
            reveal_strlit("L1B_RA_BD3");
            reveal_strlit("L1B_RA_BD4");
            reveal_strlit("L1B_RA_BD5");
            reveal_strlit("L1B_RA_BD6");
            reveal_strlit("L1B_RA_BD7");
            reveal_strlit("L1B_RA_BD8");
            reveal_strlit("L2__AER_AI");
            reveal_strlit("L2__AER_LH");
            reveal_strlit("L2__CH4___");
            reveal_strlit("L2__CLOUD_");
            reveal_strlit("L2__CO____");
            reveal_strlit("L2__HCHO__");
            reveal_strlit("L2__NO2___");
            reveal_strlit("L2__NP_BD3");
            reveal_strlit("L2__NP_BD6");
            reveal_strlit("L2__NP_BD7");
            reveal_strlit("L2__O3____");
            reveal_strlit("L2__O3_TCL");
            reveal_strlit("L2__SO2___");
            let ks = sat.known_products_spec();
            assert forall|i: int| 0 <= i < ks.len() implies #[trigger] ks[i].len() > 0 && all_ascii(ks[i])
                && ascii_upper(ks[i]) == ks[i] by {
                assert(ascii_upper(ks[i]) =~= ks[i]);
            }
        },
        Satellite::Sentinel6 => {
            reveal_strlit("MW_2__AMR");
            reveal_strlit("P4_1B_LR");
            reveal_strlit("P4_2__LR");
            let ks = sat.known_products_spec();
            assert forall|i: int| 0 <= i < ks.len() implies #[trigger] ks[i].len() > 0 && all_ascii(ks[i])
                && ascii_upper(ks[i]) == ks[i] by {
                assert(ascii_upper(ks[i]) =~= ks[i]);
            }
        },
    }
}

impl Satellite {
    /// A product type string matches a known one when either contains the
    /// other, both taken in upper case.
    pub open spec fn product_matches(known: Seq<char>, product: Seq<char>) -> bool {
        contains_seq(uppercase(known), uppercase(product))
            || contains_seq(uppercase(product), uppercase(known))
    }

    /// `product` is valid for this mission: it matches one of its known types.
    pub open spec fn is_valid_product_spec(self, product: Seq<char>) -> bool {
        exists|i: int|
            0 <= i < self.known_products_spec().len() && #[trigger] Self::product_matches(
                self.known_products_spec()[i],
                product,
            )
    }

    /// An ASCII product type matches a known one when its ASCII upper case
    /// contains the known type or is contained in it.
    pub open spec fn ascii_matches(known: Seq<char>, product: Seq<char>) -> bool {
        contains_seq(known, ascii_upper(product)) || contains_seq(ascii_upper(product), known)
    }

    /// An ASCII `product` is valid for this mission: it matches one of its
    /// known types (which are their own upper case).
    pub open spec fn is_valid_ascii_spec(self, product: Seq<char>) -> bool {
        exists|i: int|
            0 <= i < self.known_products_spec().len() && #[trigger] Self::ascii_matches(
                self.known_products_spec()[i],
                product,
            )
    }

    /// Check whether a product type string is valid for this satellite.
    ///
    /// The check is case-insensitive and matches if the known product
    /// contains the query or vice versa, so both "L2A" and "MSIL2A" work.
    pub fn is_valid_product(&self, product: &str) -> (r: bool)
        ensures
            r == self.is_valid_product_spec(product@),
            all_ascii(product@) ==> r == self.is_valid_ascii_spec(product@),
    {
        proof {
            known_products_are_upper_ascii(*self);
        }
        let product_upper = chars_of(to_uppercase(product).as_str());
        let known = self.known_products();
        let ghost ks = self.known_products_spec();
        let mut i: usize = 0;
        while i < known.len()
            invariant
                i <= known@.len(),
                ks == self.known_products_spec(),
                known@.len() == ks.len(),
                forall|k: int| 0 <= k < known@.len() ==> #[trigger] known@[k]@ == ks[k],
                forall|k: int| 0 <= k < ks.len() ==> all_ascii(#[trigger] ks[k]) && ascii_upper(ks[k]) == ks[k],
                product_upper@ == uppercase(product@),
                all_ascii(product@) ==> product_upper@ == ascii_upper(product@),
                forall|k: int| 0 <= k < i ==> !Self::product_matches(ks[k], product@),
                forall|k: int|
                    0 <= k < i ==> (all_ascii(product@) ==> !#[trigger] Self::ascii_matches(ks[k], product@)),
            decreases known@.len() - i,
        {
            let known_upper = chars_of(to_uppercase(known[i]).as_str());
            assert(all_ascii(ks[i as int]) && ascii_upper(ks[i as int]) == ks[i as int]);
            assert(known_upper@ == ks[i as int]);
            if contains_exec(&known_upper, &product_upper) || contains_exec(&product_upper, &known_upper) {
                assert(Self::product_matches(ks[i as int], product@));
                assert(all_ascii(product@) ==> Self::ascii_matches(ks[i as int], product@));
                return true;
            }
            i += 1;
        }
        false
    }
}

impl Satellite {
    /// The known product types of this mission joined with `, `.
    pub fn known_products_list(&self) -> (r: String)
        ensures
            r@ == join_spec(self.known_products_spec(), ", "@),
    {
        let known = self.known_products();
        let mut names: Vec<String> = Vec::new();
        let mut i: usize = 0;
        while i < known.len()
            invariant
                i <= known@.len(),
                known@.len() == self.known_products_spec().len(),
                forall|k: int| 0 <= k < known@.len() ==> #[trigger] known@[k]@ == self.known_products_spec()[k],
                strings_view(names@) == self.known_products_spec().take(i as int),
            decreases known@.len() - i,
        {
            let ghost before = names@;
            names.push(known[i].to_owned());
            assert(strings_view(names@) == strings_view(before).push(known@[i as int]@));
            assert(self.known_products_spec().take(i + 1) == self.known_products_spec().take(
                i as int,
            ).push(self.known_products_spec()[i as int]));
            i += 1;
        }
        assert(self.known_products_spec().take(known@.len() as int) == self.known_products_spec());
        join_strings(&names, ", ")
    }
}

} // verus!
