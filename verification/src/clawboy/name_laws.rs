//! Laws of the name tables read from emulator memory: maps, species and
//! items.
//!
//! Each table gives every ID the game defines a name of its own, so the
//! name read from memory tells which map, species or item it is. The proofs
//! tell the names apart by their lengths and a few of their characters.

use crate::clawboy::memory_map::{item_name, map_name, species_name};
use crate::text::decimal;
use vstd::prelude::*;

verus! {

/// The character at `i`, or a space where `s` has none.
spec fn char_or_space(s: Seq<char>, i: int) -> char {
    if 0 <= i < s.len() {
        s[i]
    } else {
        ' '
    }
}

/// The length and a few characters of a map name: enough to tell the
/// game's maps names apart.
spec fn map_fingerprint(s: Seq<char>) -> (nat, char, char, char, char, char, char, char, char, char, char) {
    (s.len(), char_or_space(s, 0), char_or_space(s, 1), char_or_space(s, s.len() - 1), char_or_space(s, s.len() - 2), char_or_space(s, s.len() - 3), char_or_space(s, s.len() - 4), char_or_space(s, s.len() - 5), char_or_space(s, s.len() - 6), char_or_space(s, s.len() - 7), char_or_space(s, s.len() - 8))
}

proof fn lemma_map_fingerprints_0()
    ensures
        map_fingerprint("PALLET_TOWN"@) == (11nat, 'P', 'A', 'N', 'W', 'O', 'T', '_', 'T', 'E', 'L'),
        map_fingerprint("VIRIDIAN_CITY"@) == (13nat, 'V', 'I', 'Y', 'T', 'I', 'C', '_', 'N', 'A', 'I'),
        map_fingerprint("PEWTER_CITY"@) == (11nat, 'P', 'E', 'Y', 'T', 'I', 'C', '_', 'R', 'E', 'T'),
        map_fingerprint("CERULEAN_CITY"@) == (13nat, 'C', 'E', 'Y', 'T', 'I', 'C', '_', 'N', 'A', 'E'),
        map_fingerprint("LAVENDER_TOWN"@) == (13nat, 'L', 'A', 'N', 'W', 'O', 'T', '_', 'R', 'E', 'D'),
        map_fingerprint("VERMILION_CITY"@) == (14nat, 'V', 'E', 'Y', 'T', 'I', 'C', '_', 'N', 'O', 'I'),
        map_fingerprint("CELADON_CITY"@) == (12nat, 'C', 'E', 'Y', 'T', 'I', 'C', '_', 'N', 'O', 'D'),
        map_fingerprint("FUCHSIA_CITY"@) == (12nat, 'F', 'U', 'Y', 'T', 'I', 'C', '_', 'A', 'I', 'S'),
        map_fingerprint("CINNABAR_ISLAND"@) == (15nat, 'C', 'I', 'D', 'N', 'A', 'L', 'S', 'I', '_', 'R'),
        map_fingerprint("INDIGO_PLATEAU"@) == (14nat, 'I', 'N', 'U', 'A', 'E', 'T', 'A', 'L', 'P', '_'),
        map_fingerprint("SAFFRON_CITY"@) == (12nat, 'S', 'A', 'Y', 'T', 'I', 'C', '_', 'N', 'O', 'R'),
        map_fingerprint("ROUTE_1"@) == (7nat, 'R', 'O', '1', '_', 'E', 'T', 'U', 'O', 'R', ' '),
        map_fingerprint("ROUTE_2"@) == (7nat, 'R', 'O', '2', '_', 'E', 'T', 'U', 'O', 'R', ' '),
        map_fingerprint("ROUTE_3"@) == (7nat, 'R', 'O', '3', '_', 'E', 'T', 'U', 'O', 'R', ' '),
        map_fingerprint("ROUTE_4"@) == (7nat, 'R', 'O', '4', '_', 'E', 'T', 'U', 'O', 'R', ' '),
        map_fingerprint("ROUTE_5"@) == (7nat, 'R', 'O', '5', '_', 'E', 'T', 'U', 'O', 'R', ' '),
        map_fingerprint("ROUTE_6"@) == (7nat, 'R', 'O', '6', '_', 'E', 'T', 'U', 'O', 'R', ' '),
        map_fingerprint("ROUTE_7"@) == (7nat, 'R', 'O', '7', '_', 'E', 'T', 'U', 'O', 'R', ' '),
        map_fingerprint("ROUTE_8"@) == (7nat, 'R', 'O', '8', '_', 'E', 'T', 'U', 'O', 'R', ' '),
        map_fingerprint("ROUTE_9"@) == (7nat, 'R', 'O', '9', '_', 'E', 'T', 'U', 'O', 'R', ' '),
        map_fingerprint("ROUTE_10"@) == (8nat, 'R', 'O', '0', '1', '_', 'E', 'T', 'U', 'O', 'R'),
        map_fingerprint("ROUTE_11"@) == (8nat, 'R', 'O', '1', '1', '_', 'E', 'T', 'U', 'O', 'R'),
        map_fingerprint("ROUTE_12"@) == (8nat, 'R', 'O', '2', '1', '_', 'E', 'T', 'U', 'O', 'R'),
        map_fingerprint("ROUTE_13"@) == (8nat, 'R', 'O', '3', '1', '_', 'E', 'T', 'U', 'O', 'R'),
        map_fingerprint("ROUTE_14"@) == (8nat, 'R', 'O', '4', '1', '_', 'E', 'T', 'U', 'O', 'R'),
        map_fingerprint("ROUTE_15"@) == (8nat, 'R', 'O', '5', '1', '_', 'E', 'T', 'U', 'O', 'R'),
        map_fingerprint("ROUTE_16"@) == (8nat, 'R', 'O', '6', '1', '_', 'E', 'T', 'U', 'O', 'R'),
        map_fingerprint("ROUTE_17"@) == (8nat, 'R', 'O', '7', '1', '_', 'E', 'T', 'U', 'O', 'R'),
        map_fingerprint("ROUTE_18"@) == (8nat, 'R', 'O', '8', '1', '_', 'E', 'T', 'U', 'O', 'R'),
        map_fingerprint("ROUTE_19"@) == (8nat, 'R', 'O', '9', '1', '_', 'E', 'T', 'U', 'O', 'R'),
        map_fingerprint("ROUTE_20"@) == (8nat, 'R', 'O', '0', '2', '_', 'E', 'T', 'U', 'O', 'R'),
        map_fingerprint("ROUTE_21"@) == (8nat, 'R', 'O', '1', '2', '_', 'E', 'T', 'U', 'O', 'R'),
        map_fingerprint("ROUTE_22"@) == (8nat, 'R', 'O', '2', '2', '_', 'E', 'T', 'U', 'O', 'R'),
        map_fingerprint("ROUTE_23"@) == (8nat, 'R', 'O', '3', '2', '_', 'E', 'T', 'U', 'O', 'R'),
        map_fingerprint("ROUTE_24"@) == (8nat, 'R', 'O', '4', '2', '_', 'E', 'T', 'U', 'O', 'R'),
        map_fingerprint("ROUTE_25"@) == (8nat, 'R', 'O', '5', '2', '_', 'E', 'T', 'U', 'O', 'R'),
        map_fingerprint("REDS_HOUSE_1F"@) == (13nat, 'R', 'E', 'F', '1', '_', 'E', 'S', 'U', 'O', 'H'),
        map_fingerprint("REDS_HOUSE_2F"@) == (13nat, 'R', 'E', 'F', '2', '_', 'E', 'S', 'U', 'O', 'H'),
        map_fingerprint("BLUES_HOUSE"@) == (11nat, 'B', 'L', 'E', 'S', 'U', 'O', 'H', '_', 'S', 'E'),
        map_fingerprint("OAKS_LAB"@) == (8nat, 'O', 'A', 'B', 'A', 'L', '_', 'S', 'K', 'A', 'O'),
        map_fingerprint("VIRIDIAN_POKECENTER"@) == (19nat, 'V', 'I', 'R', 'E', 'T', 'N', 'E', 'C', 'E', 'K'),
        map_fingerprint("VIRIDIAN_MART"@) == (13nat, 'V', 'I', 'T', 'R', 'A', 'M', '_', 'N', 'A', 'I'),
        map_fingerprint("VIRIDIAN_SCHOOL"@) == (15nat, 'V', 'I', 'L', 'O', 'O', 'H', 'C', 'S', '_', 'N'),
        map_fingerprint("VIRIDIAN_HOUSE"@) == (14nat, 'V', 'I', 'E', 'S', 'U', 'O', 'H', '_', 'N', 'A'),
        map_fingerprint("VIRIDIAN_GYM"@) == (12nat, 'V', 'I', 'M', 'Y', 'G', '_', 'N', 'A', 'I', 'D'),
        map_fingerprint("DIGLETTS_CAVE_ROUTE_2"@) == (21nat, 'D', 'I', '2', '_', 'E', 'T', 'U', 'O', 'R', '_'),
{
    reveal_strlit("PALLET_TOWN");
    reveal_strlit("VIRIDIAN_CITY");
    reveal_strlit("PEWTER_CITY");
    reveal_strlit("CERULEAN_CITY");
    reveal_strlit("LAVENDER_TOWN");
    reveal_strlit("VERMILION_CITY");
    reveal_strlit("CELADON_CITY");
    reveal_strlit("FUCHSIA_CITY");
    reveal_strlit("CINNABAR_ISLAND");
    reveal_strlit("INDIGO_PLATEAU");
    reveal_strlit("SAFFRON_CITY");
    reveal_strlit("ROUTE_1");
    reveal_strlit("ROUTE_2");
    reveal_strlit("ROUTE_3");
    reveal_strlit("ROUTE_4");
    reveal_strlit("ROUTE_5");
    reveal_strlit("ROUTE_6");
    reveal_strlit("ROUTE_7");
    reveal_strlit("ROUTE_8");
    reveal_strlit("ROUTE_9");
    reveal_strlit("ROUTE_10");
    reveal_strlit("ROUTE_11");
    reveal_strlit("ROUTE_12");
    reveal_strlit("ROUTE_13");
    reveal_strlit("ROUTE_14");
    reveal_strlit("ROUTE_15");
    reveal_strlit("ROUTE_16");
    reveal_strlit("ROUTE_17");
    reveal_strlit("ROUTE_18");
    reveal_strlit("ROUTE_19");
    reveal_strlit("ROUTE_20");
    reveal_strlit("ROUTE_21");
    reveal_strlit("ROUTE_22");
    reveal_strlit("ROUTE_23");
    reveal_strlit("ROUTE_24");
    reveal_strlit("ROUTE_25");
    reveal_strlit("REDS_HOUSE_1F");
    reveal_strlit("REDS_HOUSE_2F");
    reveal_strlit("BLUES_HOUSE");
    reveal_strlit("OAKS_LAB");
    reveal_strlit("VIRIDIAN_POKECENTER");
    reveal_strlit("VIRIDIAN_MART");
    reveal_strlit("VIRIDIAN_SCHOOL");
    reveal_strlit("VIRIDIAN_HOUSE");
    reveal_strlit("VIRIDIAN_GYM");
    reveal_strlit("DIGLETTS_CAVE_ROUTE_2");
}

proof fn lemma_map_fingerprints_1()
    ensures
        map_fingerprint("VIRIDIAN_FOREST_ENTRANCE"@) == (24nat, 'V', 'I', 'E', 'C', 'N', 'A', 'R', 'T', 'N', 'E'),
        map_fingerprint("VIRIDIAN_FOREST"@) == (15nat, 'V', 'I', 'T', 'S', 'E', 'R', 'O', 'F', '_', 'N'),
        map_fingerprint("MUSEUM_1F"@) == (9nat, 'M', 'U', 'F', '1', '_', 'M', 'U', 'E', 'S', 'U'),
        map_fingerprint("MUSEUM_2F"@) == (9nat, 'M', 'U', 'F', '2', '_', 'M', 'U', 'E', 'S', 'U'),
        map_fingerprint("PEWTER_GYM"@) == (10nat, 'P', 'E', 'M', 'Y', 'G', '_', 'R', 'E', 'T', 'W'),
        map_fingerprint("PEWTER_HOUSE"@) == (12nat, 'P', 'E', 'E', 'S', 'U', 'O', 'H', '_', 'R', 'E'),
        map_fingerprint("PEWTER_MART"@) == (11nat, 'P', 'E', 'T', 'R', 'A', 'M', '_', 'R', 'E', 'T'),
        map_fingerprint("PEWTER_POKECENTER"@) == (17nat, 'P', 'E', 'R', 'E', 'T', 'N', 'E', 'C', 'E', 'K'),
        map_fingerprint("MT_MOON_1F"@) == (10nat, 'M', 'T', 'F', '1', '_', 'N', 'O', 'O', 'M', '_'),
        map_fingerprint("MT_MOON_B1F"@) == (11nat, 'M', 'T', 'F', '1', 'B', '_', 'N', 'O', 'O', 'M'),
        map_fingerprint("MT_MOON_B2F"@) == (11nat, 'M', 'T', 'F', '2', 'B', '_', 'N', 'O', 'O', 'M'),
        map_fingerprint("CERULEAN_TRASHED_HOUSE"@) == (22nat, 'C', 'E', 'E', 'S', 'U', 'O', 'H', '_', 'D', 'E'),
        map_fingerprint("CERULEAN_TRADE_HOUSE"@) == (20nat, 'C', 'E', 'E', 'S', 'U', 'O', 'H', '_', 'E', 'D'),
        map_fingerprint("CERULEAN_POKECENTER"@) == (19nat, 'C', 'E', 'R', 'E', 'T', 'N', 'E', 'C', 'E', 'K'),
        map_fingerprint("CERULEAN_GYM"@) == (12nat, 'C', 'E', 'M', 'Y', 'G', '_', 'N', 'A', 'E', 'L'),
        map_fingerprint("BIKE_SHOP"@) == (9nat, 'B', 'I', 'P', 'O', 'H', 'S', '_', 'E', 'K', 'I'),
        map_fingerprint("CERULEAN_MART"@) == (13nat, 'C', 'E', 'T', 'R', 'A', 'M', '_', 'N', 'A', 'E'),
        map_fingerprint("MT_MOON_POKECENTER"@) == (18nat, 'M', 'T', 'R', 'E', 'T', 'N', 'E', 'C', 'E', 'K'),
        map_fingerprint("CERULEAN_HOUSE"@) == (14nat, 'C', 'E', 'E', 'S', 'U', 'O', 'H', '_', 'N', 'A'),
        map_fingerprint("VERMILION_POKECENTER"@) == (20nat, 'V', 'E', 'R', 'E', 'T', 'N', 'E', 'C', 'E', 'K'),
        map_fingerprint("FAN_CLUB"@) == (8nat, 'F', 'A', 'B', 'U', 'L', 'C', '_', 'N', 'A', 'F'),
        map_fingerprint("VERMILION_MART"@) == (14nat, 'V', 'E', 'T', 'R', 'A', 'M', '_', 'N', 'O', 'I'),
        map_fingerprint("VERMILION_GYM"@) == (13nat, 'V', 'E', 'M', 'Y', 'G', '_', 'N', 'O', 'I', 'L'),
        map_fingerprint("VERMILION_HOUSE"@) == (15nat, 'V', 'E', 'E', 'S', 'U', 'O', 'H', '_', 'N', 'O'),
        map_fingerprint("VERMILION_DOCK"@) == (14nat, 'V', 'E', 'K', 'C', 'O', 'D', '_', 'N', 'O', 'I'),
        map_fingerprint("SS_ANNE_1F"@) == (10nat, 'S', 'S', 'F', '1', '_', 'E', 'N', 'N', 'A', '_'),
        map_fingerprint("SS_ANNE_2F"@) == (10nat, 'S', 'S', 'F', '2', '_', 'E', 'N', 'N', 'A', '_'),
        map_fingerprint("SS_ANNE_3F"@) == (10nat, 'S', 'S', 'F', '3', '_', 'E', 'N', 'N', 'A', '_'),
        map_fingerprint("SS_ANNE_B1F"@) == (11nat, 'S', 'S', 'F', '1', 'B', '_', 'E', 'N', 'N', 'A'),
        map_fingerprint("SS_ANNE_DECK"@) == (12nat, 'S', 'S', 'K', 'C', 'E', 'D', '_', 'E', 'N', 'N'),
        map_fingerprint("SS_ANNE_KITCHEN"@) == (15nat, 'S', 'S', 'N', 'E', 'H', 'C', 'T', 'I', 'K', '_'),
        map_fingerprint("SS_ANNE_CAPTAINS_ROOM"@) == (21nat, 'S', 'S', 'M', 'O', 'O', 'R', '_', 'S', 'N', 'I'),
        map_fingerprint("SS_ANNE_1F_ROOMS"@) == (16nat, 'S', 'S', 'S', 'M', 'O', 'O', 'R', '_', 'F', '1'),
        map_fingerprint("SS_ANNE_2F_ROOMS"@) == (16nat, 'S', 'S', 'S', 'M', 'O', 'O', 'R', '_', 'F', '2'),
        map_fingerprint("SS_ANNE_B1F_ROOMS"@) == (17nat, 'S', 'S', 'S', 'M', 'O', 'O', 'R', '_', 'F', '1'),
        map_fingerprint("UNDERGROUND_PATH_NS"@) == (19nat, 'U', 'N', 'S', 'N', '_', 'H', 'T', 'A', 'P', '_'),
        map_fingerprint("UNDERGROUND_PATH_WE"@) == (19nat, 'U', 'N', 'E', 'W', '_', 'H', 'T', 'A', 'P', '_'),
        map_fingerprint("DIGLETTS_CAVE"@) == (13nat, 'D', 'I', 'E', 'V', 'A', 'C', '_', 'S', 'T', 'T'),
        map_fingerprint("SILPH_CO_1F"@) == (11nat, 'S', 'I', 'F', '1', '_', 'O', 'C', '_', 'H', 'P'),
        map_fingerprint("SILPH_CO_2F"@) == (11nat, 'S', 'I', 'F', '2', '_', 'O', 'C', '_', 'H', 'P'),
        map_fingerprint("SILPH_CO_3F"@) == (11nat, 'S', 'I', 'F', '3', '_', 'O', 'C', '_', 'H', 'P'),
        map_fingerprint("SILPH_CO_4F"@) == (11nat, 'S', 'I', 'F', '4', '_', 'O', 'C', '_', 'H', 'P'),
        map_fingerprint("SILPH_CO_5F"@) == (11nat, 'S', 'I', 'F', '5', '_', 'O', 'C', '_', 'H', 'P'),
        map_fingerprint("SILPH_CO_6F"@) == (11nat, 'S', 'I', 'F', '6', '_', 'O', 'C', '_', 'H', 'P'),
        map_fingerprint("SILPH_CO_7F"@) == (11nat, 'S', 'I', 'F', '7', '_', 'O', 'C', '_', 'H', 'P'),
        map_fingerprint("SILPH_CO_8F"@) == (11nat, 'S', 'I', 'F', '8', '_', 'O', 'C', '_', 'H', 'P'),
{
    reveal_strlit("VIRIDIAN_FOREST_ENTRANCE");
    reveal_strlit("VIRIDIAN_FOREST");
    reveal_strlit("MUSEUM_1F");
    reveal_strlit("MUSEUM_2F");
    reveal_strlit("PEWTER_GYM");
    reveal_strlit("PEWTER_HOUSE");
    reveal_strlit("PEWTER_MART");
    reveal_strlit("PEWTER_POKECENTER");
    reveal_strlit("MT_MOON_1F");
    reveal_strlit("MT_MOON_B1F");
    reveal_strlit("MT_MOON_B2F");
    reveal_strlit("CERULEAN_TRASHED_HOUSE");
    reveal_strlit("CERULEAN_TRADE_HOUSE");
    reveal_strlit("CERULEAN_POKECENTER");
    reveal_strlit("CERULEAN_GYM");
    reveal_strlit("BIKE_SHOP");
    reveal_strlit("CERULEAN_MART");
    reveal_strlit("MT_MOON_POKECENTER");
    reveal_strlit("CERULEAN_HOUSE");
    reveal_strlit("VERMILION_POKECENTER");
    reveal_strlit("FAN_CLUB");
    reveal_strlit("VERMILION_MART");
    reveal_strlit("VERMILION_GYM");
    reveal_strlit("VERMILION_HOUSE");
    reveal_strlit("VERMILION_DOCK");
    reveal_strlit("SS_ANNE_1F");
    reveal_strlit("SS_ANNE_2F");
    reveal_strlit("SS_ANNE_3F");
    reveal_strlit("SS_ANNE_B1F");
    reveal_strlit("SS_ANNE_DECK");
    reveal_strlit("SS_ANNE_KITCHEN");
    reveal_strlit("SS_ANNE_CAPTAINS_ROOM");
    reveal_strlit("SS_ANNE_1F_ROOMS");
    reveal_strlit("SS_ANNE_2F_ROOMS");
    reveal_strlit("SS_ANNE_B1F_ROOMS");
    reveal_strlit("UNDERGROUND_PATH_NS");
    reveal_strlit("UNDERGROUND_PATH_WE");
    reveal_strlit("DIGLETTS_CAVE");
    reveal_strlit("SILPH_CO_1F");
    reveal_strlit("SILPH_CO_2F");
    reveal_strlit("SILPH_CO_3F");
    reveal_strlit("SILPH_CO_4F");
    reveal_strlit("SILPH_CO_5F");
    reveal_strlit("SILPH_CO_6F");
    reveal_strlit("SILPH_CO_7F");
    reveal_strlit("SILPH_CO_8F");
}

proof fn lemma_map_fingerprints_2()
    ensures
        map_fingerprint("SILPH_CO_9F"@) == (11nat, 'S', 'I', 'F', '9', '_', 'O', 'C', '_', 'H', 'P'),
        map_fingerprint("SILPH_CO_10F"@) == (12nat, 'S', 'I', 'F', '0', '1', '_', 'O', 'C', '_', 'H'),
        map_fingerprint("SILPH_CO_11F"@) == (12nat, 'S', 'I', 'F', '1', '1', '_', 'O', 'C', '_', 'H'),
        map_fingerprint("CELADON_MANSION_1F"@) == (18nat, 'C', 'E', 'F', '1', '_', 'N', 'O', 'I', 'S', 'N'),
        map_fingerprint("CELADON_MANSION_2F"@) == (18nat, 'C', 'E', 'F', '2', '_', 'N', 'O', 'I', 'S', 'N'),
        map_fingerprint("CELADON_MANSION_3F"@) == (18nat, 'C', 'E', 'F', '3', '_', 'N', 'O', 'I', 'S', 'N'),
        map_fingerprint("CELADON_MANSION_ROOF"@) == (20nat, 'C', 'E', 'F', 'O', 'O', 'R', '_', 'N', 'O', 'I'),
        map_fingerprint("CELADON_POKECENTER"@) == (18nat, 'C', 'E', 'R', 'E', 'T', 'N', 'E', 'C', 'E', 'K'),
        map_fingerprint("CELADON_GYM"@) == (11nat, 'C', 'E', 'M', 'Y', 'G', '_', 'N', 'O', 'D', 'A'),
        map_fingerprint("GAME_CORNER"@) == (11nat, 'G', 'A', 'R', 'E', 'N', 'R', 'O', 'C', '_', 'E'),
        map_fingerprint("CELADON_DEPT_STORE_1F"@) == (21nat, 'C', 'E', 'F', '1', '_', 'E', 'R', 'O', 'T', 'S'),
        map_fingerprint("CELADON_DEPT_STORE_2F"@) == (21nat, 'C', 'E', 'F', '2', '_', 'E', 'R', 'O', 'T', 'S'),
        map_fingerprint("CELADON_DEPT_STORE_3F"@) == (21nat, 'C', 'E', 'F', '3', '_', 'E', 'R', 'O', 'T', 'S'),
        map_fingerprint("CELADON_DEPT_STORE_4F"@) == (21nat, 'C', 'E', 'F', '4', '_', 'E', 'R', 'O', 'T', 'S'),
        map_fingerprint("CELADON_DEPT_STORE_5F"@) == (21nat, 'C', 'E', 'F', '5', '_', 'E', 'R', 'O', 'T', 'S'),
        map_fingerprint("CELADON_DEPT_STORE_ROOF"@) == (23nat, 'C', 'E', 'F', 'O', 'O', 'R', '_', 'E', 'R', 'O'),
        map_fingerprint("CELADON_MART"@) == (12nat, 'C', 'E', 'T', 'R', 'A', 'M', '_', 'N', 'O', 'D'),
        map_fingerprint("CELADON_DINER"@) == (13nat, 'C', 'E', 'R', 'E', 'N', 'I', 'D', '_', 'N', 'O'),
        map_fingerprint("CELADON_HOTEL"@) == (13nat, 'C', 'E', 'L', 'E', 'T', 'O', 'H', '_', 'N', 'O'),
        map_fingerprint("LAVENDER_POKECENTER"@) == (19nat, 'L', 'A', 'R', 'E', 'T', 'N', 'E', 'C', 'E', 'K'),
        map_fingerprint("POKEMON_TOWER_1F"@) == (16nat, 'P', 'O', 'F', '1', '_', 'R', 'E', 'W', 'O', 'T'),
        map_fingerprint("POKEMON_TOWER_2F"@) == (16nat, 'P', 'O', 'F', '2', '_', 'R', 'E', 'W', 'O', 'T'),
        map_fingerprint("POKEMON_TOWER_3F"@) == (16nat, 'P', 'O', 'F', '3', '_', 'R', 'E', 'W', 'O', 'T'),
        map_fingerprint("POKEMON_TOWER_4F"@) == (16nat, 'P', 'O', 'F', '4', '_', 'R', 'E', 'W', 'O', 'T'),
        map_fingerprint("POKEMON_TOWER_5F"@) == (16nat, 'P', 'O', 'F', '5', '_', 'R', 'E', 'W', 'O', 'T'),
        map_fingerprint("POKEMON_TOWER_6F"@) == (16nat, 'P', 'O', 'F', '6', '_', 'R', 'E', 'W', 'O', 'T'),
        map_fingerprint("POKEMON_TOWER_7F"@) == (16nat, 'P', 'O', 'F', '7', '_', 'R', 'E', 'W', 'O', 'T'),
        map_fingerprint("LAVENDER_HOUSE_1"@) == (16nat, 'L', 'A', '1', '_', 'E', 'S', 'U', 'O', 'H', '_'),
        map_fingerprint("LAVENDER_MART"@) == (13nat, 'L', 'A', 'T', 'R', 'A', 'M', '_', 'R', 'E', 'D'),
        map_fingerprint("LAVENDER_HOUSE_2"@) == (16nat, 'L', 'A', '2', '_', 'E', 'S', 'U', 'O', 'H', '_'),
        map_fingerprint("FUCHSIA_POKECENTER"@) == (18nat, 'F', 'U', 'R', 'E', 'T', 'N', 'E', 'C', 'E', 'K'),
        map_fingerprint("FUCHSIA_MART"@) == (12nat, 'F', 'U', 'T', 'R', 'A', 'M', '_', 'A', 'I', 'S'),
        map_fingerprint("FUCHSIA_HOUSE_1"@) == (15nat, 'F', 'U', '1', '_', 'E', 'S', 'U', 'O', 'H', '_'),
        map_fingerprint("FUCHSIA_GYM"@) == (11nat, 'F', 'U', 'M', 'Y', 'G', '_', 'A', 'I', 'S', 'H'),
        map_fingerprint("FUCHSIA_HOUSE_2"@) == (15nat, 'F', 'U', '2', '_', 'E', 'S', 'U', 'O', 'H', '_'),
        map_fingerprint("SAFARI_ZONE_ENTRANCE"@) == (20nat, 'S', 'A', 'E', 'C', 'N', 'A', 'R', 'T', 'N', 'E'),
        map_fingerprint("SAFARI_ZONE_CENTER"@) == (18nat, 'S', 'A', 'R', 'E', 'T', 'N', 'E', 'C', '_', 'E'),
        map_fingerprint("SAFARI_ZONE_AREA_1"@) == (18nat, 'S', 'A', '1', '_', 'A', 'E', 'R', 'A', '_', 'E'),
        map_fingerprint("SAFARI_ZONE_AREA_2"@) == (18nat, 'S', 'A', '2', '_', 'A', 'E', 'R', 'A', '_', 'E'),
        map_fingerprint("SAFARI_ZONE_AREA_3"@) == (18nat, 'S', 'A', '3', '_', 'A', 'E', 'R', 'A', '_', 'E'),
        map_fingerprint("SAFARI_ZONE_REST_HOUSE_1"@) == (24nat, 'S', 'A', '1', '_', 'E', 'S', 'U', 'O', 'H', '_'),
        map_fingerprint("SAFARI_ZONE_SECRET_HOUSE"@) == (24nat, 'S', 'A', 'E', 'S', 'U', 'O', 'H', '_', 'T', 'E'),
        map_fingerprint("SAFARI_ZONE_REST_HOUSE_2"@) == (24nat, 'S', 'A', '2', '_', 'E', 'S', 'U', 'O', 'H', '_'),
        map_fingerprint("SAFARI_ZONE_REST_HOUSE_3"@) == (24nat, 'S', 'A', '3', '_', 'E', 'S', 'U', 'O', 'H', '_'),
        map_fingerprint("SAFARI_ZONE_REST_HOUSE_4"@) == (24nat, 'S', 'A', '4', '_', 'E', 'S', 'U', 'O', 'H', '_'),
        map_fingerprint("SAFFRON_GYM"@) == (11nat, 'S', 'A', 'M', 'Y', 'G', '_', 'N', 'O', 'R', 'F'),
{
    reveal_strlit("SILPH_CO_9F");
    reveal_strlit("SILPH_CO_10F");
    reveal_strlit("SILPH_CO_11F");
    reveal_strlit("CELADON_MANSION_1F");
    reveal_strlit("CELADON_MANSION_2F");
    reveal_strlit("CELADON_MANSION_3F");
    reveal_strlit("CELADON_MANSION_ROOF");
    reveal_strlit("CELADON_POKECENTER");
    reveal_strlit("CELADON_GYM");
    reveal_strlit("GAME_CORNER");
    reveal_strlit("CELADON_DEPT_STORE_1F");
    reveal_strlit("CELADON_DEPT_STORE_2F");
    reveal_strlit("CELADON_DEPT_STORE_3F");
    reveal_strlit("CELADON_DEPT_STORE_4F");
    reveal_strlit("CELADON_DEPT_STORE_5F");
    reveal_strlit("CELADON_DEPT_STORE_ROOF");
    reveal_strlit("CELADON_MART");
    reveal_strlit("CELADON_DINER");
    reveal_strlit("CELADON_HOTEL");
    reveal_strlit("LAVENDER_POKECENTER");
    reveal_strlit("POKEMON_TOWER_1F");
    reveal_strlit("POKEMON_TOWER_2F");
    reveal_strlit("POKEMON_TOWER_3F");
    reveal_strlit("POKEMON_TOWER_4F");
    reveal_strlit("POKEMON_TOWER_5F");
    reveal_strlit("POKEMON_TOWER_6F");
    reveal_strlit("POKEMON_TOWER_7F");
    reveal_strlit("LAVENDER_HOUSE_1");
    reveal_strlit("LAVENDER_MART");
    reveal_strlit("LAVENDER_HOUSE_2");
    reveal_strlit("FUCHSIA_POKECENTER");
    reveal_strlit("FUCHSIA_MART");
    reveal_strlit("FUCHSIA_HOUSE_1");
    reveal_strlit("FUCHSIA_GYM");
    reveal_strlit("FUCHSIA_HOUSE_2");
    reveal_strlit("SAFARI_ZONE_ENTRANCE");
    reveal_strlit("SAFARI_ZONE_CENTER");
    reveal_strlit("SAFARI_ZONE_AREA_1");
    reveal_strlit("SAFARI_ZONE_AREA_2");
    reveal_strlit("SAFARI_ZONE_AREA_3");
    reveal_strlit("SAFARI_ZONE_REST_HOUSE_1");
    reveal_strlit("SAFARI_ZONE_SECRET_HOUSE");
    reveal_strlit("SAFARI_ZONE_REST_HOUSE_2");
    reveal_strlit("SAFARI_ZONE_REST_HOUSE_3");
    reveal_strlit("SAFARI_ZONE_REST_HOUSE_4");
    reveal_strlit("SAFFRON_GYM");
}

proof fn lemma_map_fingerprints_3()
    ensures
        map_fingerprint("SAFFRON_POKECENTER"@) == (18nat, 'S', 'A', 'R', 'E', 'T', 'N', 'E', 'C', 'E', 'K'),
        map_fingerprint("SAFFRON_MART"@) == (12nat, 'S', 'A', 'T', 'R', 'A', 'M', '_', 'N', 'O', 'R'),
        map_fingerprint("SILPH_CO_ENTRANCE"@) == (17nat, 'S', 'I', 'E', 'C', 'N', 'A', 'R', 'T', 'N', 'E'),
        map_fingerprint("SAFFRON_HOUSE_1"@) == (15nat, 'S', 'A', '1', '_', 'E', 'S', 'U', 'O', 'H', '_'),
        map_fingerprint("SAFFRON_HOUSE_2"@) == (15nat, 'S', 'A', '2', '_', 'E', 'S', 'U', 'O', 'H', '_'),
        map_fingerprint("FIGHTING_DOJO"@) == (13nat, 'F', 'I', 'O', 'J', 'O', 'D', '_', 'G', 'N', 'I'),
        map_fingerprint("SAFFRON_HOUSE_3"@) == (15nat, 'S', 'A', '3', '_', 'E', 'S', 'U', 'O', 'H', '_'),
        map_fingerprint("CINNABAR_GYM"@) == (12nat, 'C', 'I', 'M', 'Y', 'G', '_', 'R', 'A', 'B', 'A'),
        map_fingerprint("CINNABAR_POKECENTER"@) == (19nat, 'C', 'I', 'R', 'E', 'T', 'N', 'E', 'C', 'E', 'K'),
        map_fingerprint("CINNABAR_MART"@) == (13nat, 'C', 'I', 'T', 'R', 'A', 'M', '_', 'R', 'A', 'B'),
        map_fingerprint("CINNABAR_LAB"@) == (12nat, 'C', 'I', 'B', 'A', 'L', '_', 'R', 'A', 'B', 'A'),
        map_fingerprint("CINNABAR_LAB_TRADE_ROOM"@) == (23nat, 'C', 'I', 'M', 'O', 'O', 'R', '_', 'E', 'D', 'A'),
        map_fingerprint("CINNABAR_LAB_FOSSIL_ROOM"@) == (24nat, 'C', 'I', 'M', 'O', 'O', 'R', '_', 'L', 'I', 'S'),
        map_fingerprint("CINNABAR_LAB_METRONOME_ROOM"@) == (27nat, 'C', 'I', 'M', 'O', 'O', 'R', '_', 'E', 'M', 'O'),
        map_fingerprint("CINNABAR_POKEMON_CENTER"@) == (23nat, 'C', 'I', 'R', 'E', 'T', 'N', 'E', 'C', '_', 'N'),
        map_fingerprint("POKEMON_MANSION_1F"@) == (18nat, 'P', 'O', 'F', '1', '_', 'N', 'O', 'I', 'S', 'N'),
        map_fingerprint("POKEMON_MANSION_2F"@) == (18nat, 'P', 'O', 'F', '2', '_', 'N', 'O', 'I', 'S', 'N'),
        map_fingerprint("POKEMON_MANSION_3F"@) == (18nat, 'P', 'O', 'F', '3', '_', 'N', 'O', 'I', 'S', 'N'),
        map_fingerprint("POKEMON_MANSION_B1F"@) == (19nat, 'P', 'O', 'F', '1', 'B', '_', 'N', 'O', 'I', 'S'),
        map_fingerprint("INDIGO_PLATEAU_LOBBY"@) == (20nat, 'I', 'N', 'Y', 'B', 'B', 'O', 'L', '_', 'U', 'A'),
        map_fingerprint("LORELEIS_ROOM"@) == (13nat, 'L', 'O', 'M', 'O', 'O', 'R', '_', 'S', 'I', 'E'),
        map_fingerprint("BRUNOS_ROOM"@) == (11nat, 'B', 'R', 'M', 'O', 'O', 'R', '_', 'S', 'O', 'N'),
        map_fingerprint("AGATHAS_ROOM"@) == (12nat, 'A', 'G', 'M', 'O', 'O', 'R', '_', 'S', 'A', 'H'),
        map_fingerprint("LANCES_ROOM"@) == (11nat, 'L', 'A', 'M', 'O', 'O', 'R', '_', 'S', 'E', 'C'),
        map_fingerprint("HALL_OF_FAME"@) == (12nat, 'H', 'A', 'E', 'M', 'A', 'F', '_', 'F', 'O', '_'),
        map_fingerprint("POWER_PLANT"@) == (11nat, 'P', 'O', 'T', 'N', 'A', 'L', 'P', '_', 'R', 'E'),
        map_fingerprint("VICTORY_ROAD_1F"@) == (15nat, 'V', 'I', 'F', '1', '_', 'D', 'A', 'O', 'R', '_'),
        map_fingerprint("VICTORY_ROAD_2F"@) == (15nat, 'V', 'I', 'F', '2', '_', 'D', 'A', 'O', 'R', '_'),
        map_fingerprint("VICTORY_ROAD_3F"@) == (15nat, 'V', 'I', 'F', '3', '_', 'D', 'A', 'O', 'R', '_'),
        map_fingerprint("ROCK_TUNNEL_1F"@) == (14nat, 'R', 'O', 'F', '1', '_', 'L', 'E', 'N', 'N', 'U'),
        map_fingerprint("ROCK_TUNNEL_B1F"@) == (15nat, 'R', 'O', 'F', '1', 'B', '_', 'L', 'E', 'N', 'N'),
        map_fingerprint("SEAFOAM_ISLANDS_1F"@) == (18nat, 'S', 'E', 'F', '1', '_', 'S', 'D', 'N', 'A', 'L'),
        map_fingerprint("SEAFOAM_ISLANDS_B1F"@) == (19nat, 'S', 'E', 'F', '1', 'B', '_', 'S', 'D', 'N', 'A'),
        map_fingerprint("SEAFOAM_ISLANDS_B2F"@) == (19nat, 'S', 'E', 'F', '2', 'B', '_', 'S', 'D', 'N', 'A'),
        map_fingerprint("SEAFOAM_ISLANDS_B3F"@) == (19nat, 'S', 'E', 'F', '3', 'B', '_', 'S', 'D', 'N', 'A'),
        map_fingerprint("SEAFOAM_ISLANDS_B4F"@) == (19nat, 'S', 'E', 'F', '4', 'B', '_', 'S', 'D', 'N', 'A'),
        map_fingerprint("POKEMON_LEAGUE_GATE"@) == (19nat, 'P', 'O', 'E', 'T', 'A', 'G', '_', 'E', 'U', 'G'),
        map_fingerprint("BILLS_HOUSE"@) == (11nat, 'B', 'I', 'E', 'S', 'U', 'O', 'H', '_', 'S', 'L'),
        map_fingerprint("UNKNOWN_DUNGEON_1F"@) == (18nat, 'U', 'N', 'F', '1', '_', 'N', 'O', 'E', 'G', 'N'),
        map_fingerprint("UNKNOWN_DUNGEON_2F"@) == (18nat, 'U', 'N', 'F', '2', '_', 'N', 'O', 'E', 'G', 'N'),
        map_fingerprint("UNKNOWN_DUNGEON_B1F"@) == (19nat, 'U', 'N', 'F', '1', 'B', '_', 'N', 'O', 'E', 'G'),
        map_fingerprint("TRADE_CENTER"@) == (12nat, 'T', 'R', 'R', 'E', 'T', 'N', 'E', 'C', '_', 'E'),
        map_fingerprint("COLOSSEUM"@) == (9nat, 'C', 'O', 'M', 'U', 'E', 'S', 'S', 'O', 'L', 'O'),
        map_fingerprint("UNKNOWN_MAP"@) == (11nat, 'U', 'N', 'P', 'A', 'M', '_', 'N', 'W', 'O', 'N'),
{
    reveal_strlit("SAFFRON_POKECENTER");
    reveal_strlit("SAFFRON_MART");
    reveal_strlit("SILPH_CO_ENTRANCE");
    reveal_strlit("SAFFRON_HOUSE_1");
    reveal_strlit("SAFFRON_HOUSE_2");
    reveal_strlit("FIGHTING_DOJO");
    reveal_strlit("SAFFRON_HOUSE_3");
    reveal_strlit("CINNABAR_GYM");
    reveal_strlit("CINNABAR_POKECENTER");
    reveal_strlit("CINNABAR_MART");
    reveal_strlit("CINNABAR_LAB");
    reveal_strlit("CINNABAR_LAB_TRADE_ROOM");
    reveal_strlit("CINNABAR_LAB_FOSSIL_ROOM");
    reveal_strlit("CINNABAR_LAB_METRONOME_ROOM");
    reveal_strlit("CINNABAR_POKEMON_CENTER");
    reveal_strlit("POKEMON_MANSION_1F");
    reveal_strlit("POKEMON_MANSION_2F");
    reveal_strlit("POKEMON_MANSION_3F");
    reveal_strlit("POKEMON_MANSION_B1F");
    reveal_strlit("INDIGO_PLATEAU_LOBBY");
    reveal_strlit("LORELEIS_ROOM");
    reveal_strlit("BRUNOS_ROOM");
    reveal_strlit("AGATHAS_ROOM");
    reveal_strlit("LANCES_ROOM");
    reveal_strlit("HALL_OF_FAME");
    reveal_strlit("POWER_PLANT");
    reveal_strlit("VICTORY_ROAD_1F");
    reveal_strlit("VICTORY_ROAD_2F");
    reveal_strlit("VICTORY_ROAD_3F");
    reveal_strlit("ROCK_TUNNEL_1F");
    reveal_strlit("ROCK_TUNNEL_B1F");
    reveal_strlit("SEAFOAM_ISLANDS_1F");
    reveal_strlit("SEAFOAM_ISLANDS_B1F");
    reveal_strlit("SEAFOAM_ISLANDS_B2F");
    reveal_strlit("SEAFOAM_ISLANDS_B3F");
    reveal_strlit("SEAFOAM_ISLANDS_B4F");
    reveal_strlit("POKEMON_LEAGUE_GATE");
    reveal_strlit("BILLS_HOUSE");
    reveal_strlit("UNKNOWN_DUNGEON_1F");
    reveal_strlit("UNKNOWN_DUNGEON_2F");
    reveal_strlit("UNKNOWN_DUNGEON_B1F");
    reveal_strlit("TRADE_CENTER");
    reveal_strlit("COLOSSEUM");
    reveal_strlit("UNKNOWN_MAP");
}

/// The map ID a map name belongs to.
spec fn map_id_named(name: Seq<char>) -> Option<u8> {
    if name == "PALLET_TOWN"@ {
        Some(0u8)
    } else if name == "VIRIDIAN_CITY"@ {
        Some(1u8)
    } else if name == "PEWTER_CITY"@ {
        Some(2u8)
    } else if name == "CERULEAN_CITY"@ {
        Some(3u8)
    } else if name == "LAVENDER_TOWN"@ {
        Some(4u8)
    } else if name == "VERMILION_CITY"@ {
        Some(5u8)
    } else if name == "CELADON_CITY"@ {
        Some(6u8)
    } else if name == "FUCHSIA_CITY"@ {
        Some(7u8)
    } else if name == "CINNABAR_ISLAND"@ {
        Some(8u8)
    } else if name == "INDIGO_PLATEAU"@ {
        Some(9u8)
    } else if name == "SAFFRON_CITY"@ {
        Some(10u8)
    } else if name == "ROUTE_1"@ {
        Some(12u8)
    } else if name == "ROUTE_2"@ {
        Some(13u8)
    } else if name == "ROUTE_3"@ {
        Some(14u8)
    } else if name == "ROUTE_4"@ {
        Some(15u8)
    } else if name == "ROUTE_5"@ {
        Some(16u8)
    } else if name == "ROUTE_6"@ {
        Some(17u8)
    } else if name == "ROUTE_7"@ {
        Some(18u8)
    } else if name == "ROUTE_8"@ {
        Some(19u8)
    } else if name == "ROUTE_9"@ {
        Some(20u8)
    } else if name == "ROUTE_10"@ {
        Some(21u8)
    } else if name == "ROUTE_11"@ {
        Some(22u8)
    } else if name == "ROUTE_12"@ {
        Some(23u8)
    } else if name == "ROUTE_13"@ {
        Some(24u8)
    } else if name == "ROUTE_14"@ {
        Some(25u8)
    } else if name == "ROUTE_15"@ {
        Some(26u8)
    } else if name == "ROUTE_16"@ {
        Some(27u8)
    } else if name == "ROUTE_17"@ {
        Some(28u8)
    } else if name == "ROUTE_18"@ {
        Some(29u8)
    } else if name == "ROUTE_19"@ {
        Some(30u8)
    } else if name == "ROUTE_20"@ {
        Some(31u8)
    } else if name == "ROUTE_21"@ {
        Some(32u8)
    } else if name == "ROUTE_22"@ {
        Some(33u8)
    } else if name == "ROUTE_23"@ {
        Some(34u8)
    } else if name == "ROUTE_24"@ {
        Some(35u8)
    } else if name == "ROUTE_25"@ {
        Some(36u8)
    } else if name == "REDS_HOUSE_1F"@ {
        Some(37u8)
    } else if name == "REDS_HOUSE_2F"@ {
        Some(38u8)
    } else if name == "BLUES_HOUSE"@ {
        Some(39u8)
    } else if name == "OAKS_LAB"@ {
        Some(40u8)
    } else if name == "VIRIDIAN_POKECENTER"@ {
        Some(41u8)
    } else if name == "VIRIDIAN_MART"@ {
        Some(42u8)
    } else if name == "VIRIDIAN_SCHOOL"@ {
        Some(43u8)
    } else if name == "VIRIDIAN_HOUSE"@ {
        Some(44u8)
    } else if name == "VIRIDIAN_GYM"@ {
        Some(45u8)
    } else if name == "DIGLETTS_CAVE_ROUTE_2"@ {
        Some(46u8)
    } else if name == "VIRIDIAN_FOREST_ENTRANCE"@ {
        Some(47u8)
    } else if name == "VIRIDIAN_FOREST"@ {
        Some(48u8)
    } else if name == "MUSEUM_1F"@ {
        Some(49u8)
    } else if name == "MUSEUM_2F"@ {
        Some(50u8)
    } else if name == "PEWTER_GYM"@ {
        Some(51u8)
    } else if name == "PEWTER_HOUSE"@ {
        Some(52u8)
    } else if name == "PEWTER_MART"@ {
        Some(53u8)
    } else if name == "PEWTER_POKECENTER"@ {
        Some(54u8)
    } else if name == "MT_MOON_1F"@ {
        Some(55u8)
    } else if name == "MT_MOON_B1F"@ {
        Some(56u8)
    } else if name == "MT_MOON_B2F"@ {
        Some(57u8)
    } else if name == "CERULEAN_TRASHED_HOUSE"@ {
        Some(58u8)
    } else if name == "CERULEAN_TRADE_HOUSE"@ {
        Some(59u8)
    } else if name == "CERULEAN_POKECENTER"@ {
        Some(60u8)
    } else if name == "CERULEAN_GYM"@ {
        Some(61u8)
    } else if name == "BIKE_SHOP"@ {
        Some(62u8)
    } else if name == "CERULEAN_MART"@ {
        Some(63u8)
    } else if name == "MT_MOON_POKECENTER"@ {
        Some(64u8)
    } else if name == "CERULEAN_HOUSE"@ {
        Some(65u8)
    } else if name == "VERMILION_POKECENTER"@ {
        Some(68u8)
    } else if name == "FAN_CLUB"@ {
        Some(69u8)
    } else if name == "VERMILION_MART"@ {
        Some(70u8)
    } else if name == "VERMILION_GYM"@ {
        Some(71u8)
    } else if name == "VERMILION_HOUSE"@ {
        Some(72u8)
    } else if name == "VERMILION_DOCK"@ {
        Some(73u8)
    } else if name == "SS_ANNE_1F"@ {
        Some(74u8)
    } else if name == "SS_ANNE_2F"@ {
        Some(75u8)
    } else if name == "SS_ANNE_3F"@ {
        Some(76u8)
    } else if name == "SS_ANNE_B1F"@ {
        Some(77u8)
    } else if name == "SS_ANNE_DECK"@ {
        Some(78u8)
    } else if name == "SS_ANNE_KITCHEN"@ {
        Some(79u8)
    } else if name == "SS_ANNE_CAPTAINS_ROOM"@ {
        Some(80u8)
    } else if name == "SS_ANNE_1F_ROOMS"@ {
        Some(81u8)
    } else if name == "SS_ANNE_2F_ROOMS"@ {
        Some(82u8)
    } else if name == "SS_ANNE_B1F_ROOMS"@ {
        Some(83u8)
    } else if name == "UNDERGROUND_PATH_NS"@ {
        Some(86u8)
    } else if name == "UNDERGROUND_PATH_WE"@ {
        Some(87u8)
    } else if name == "DIGLETTS_CAVE"@ {
        Some(88u8)
    } else if name == "SILPH_CO_1F"@ {
        Some(89u8)
    } else if name == "SILPH_CO_2F"@ {
        Some(90u8)
    } else if name == "SILPH_CO_3F"@ {
        Some(91u8)
    } else if name == "SILPH_CO_4F"@ {
        Some(92u8)
    } else if name == "SILPH_CO_5F"@ {
        Some(93u8)
    } else if name == "SILPH_CO_6F"@ {
        Some(94u8)
    } else if name == "SILPH_CO_7F"@ {
        Some(95u8)
    } else if name == "SILPH_CO_8F"@ {
        Some(96u8)
    } else if name == "SILPH_CO_9F"@ {
        Some(97u8)
    } else if name == "SILPH_CO_10F"@ {
        Some(98u8)
    } else if name == "SILPH_CO_11F"@ {
        Some(99u8)
    } else if name == "CELADON_MANSION_1F"@ {
        Some(100u8)
    } else if name == "CELADON_MANSION_2F"@ {
        Some(101u8)
    } else if name == "CELADON_MANSION_3F"@ {
        Some(102u8)
    } else if name == "CELADON_MANSION_ROOF"@ {
        Some(103u8)
    } else if name == "CELADON_POKECENTER"@ {
        Some(104u8)
    } else if name == "CELADON_GYM"@ {
        Some(105u8)
    } else if name == "GAME_CORNER"@ {
        Some(106u8)
    } else if name == "CELADON_DEPT_STORE_1F"@ {
        Some(107u8)
    } else if name == "CELADON_DEPT_STORE_2F"@ {
        Some(108u8)
    } else if name == "CELADON_DEPT_STORE_3F"@ {
        Some(109u8)
    } else if name == "CELADON_DEPT_STORE_4F"@ {
        Some(110u8)
    } else if name == "CELADON_DEPT_STORE_5F"@ {
        Some(111u8)
    } else if name == "CELADON_DEPT_STORE_ROOF"@ {
        Some(112u8)
    } else if name == "CELADON_MART"@ {
        Some(113u8)
    } else if name == "CELADON_DINER"@ {
        Some(114u8)
    } else if name == "CELADON_HOTEL"@ {
        Some(115u8)
    } else if name == "LAVENDER_POKECENTER"@ {
        Some(116u8)
    } else if name == "POKEMON_TOWER_1F"@ {
        Some(117u8)
    } else if name == "POKEMON_TOWER_2F"@ {
        Some(118u8)
    } else if name == "POKEMON_TOWER_3F"@ {
        Some(119u8)
    } else if name == "POKEMON_TOWER_4F"@ {
        Some(120u8)
    } else if name == "POKEMON_TOWER_5F"@ {
        Some(121u8)
    } else if name == "POKEMON_TOWER_6F"@ {
        Some(122u8)
    } else if name == "POKEMON_TOWER_7F"@ {
        Some(123u8)
    } else if name == "LAVENDER_HOUSE_1"@ {
        Some(124u8)
    } else if name == "LAVENDER_MART"@ {
        Some(125u8)
    } else if name == "LAVENDER_HOUSE_2"@ {
        Some(126u8)
    } else if name == "FUCHSIA_POKECENTER"@ {
        Some(133u8)
    } else if name == "FUCHSIA_MART"@ {
        Some(134u8)
    } else if name == "FUCHSIA_HOUSE_1"@ {
        Some(135u8)
    } else if name == "FUCHSIA_GYM"@ {
        Some(136u8)
    } else if name == "FUCHSIA_HOUSE_2"@ {
        Some(137u8)
    } else if name == "SAFARI_ZONE_ENTRANCE"@ {
        Some(138u8)
    } else if name == "SAFARI_ZONE_CENTER"@ {
        Some(139u8)
    } else if name == "SAFARI_ZONE_AREA_1"@ {
        Some(140u8)
    } else if name == "SAFARI_ZONE_AREA_2"@ {
        Some(141u8)
    } else if name == "SAFARI_ZONE_AREA_3"@ {
        Some(142u8)
    } else if name == "SAFARI_ZONE_REST_HOUSE_1"@ {
        Some(143u8)
    } else if name == "SAFARI_ZONE_SECRET_HOUSE"@ {
        Some(144u8)
    } else if name == "SAFARI_ZONE_REST_HOUSE_2"@ {
        Some(145u8)
    } else if name == "SAFARI_ZONE_REST_HOUSE_3"@ {
        Some(146u8)
    } else if name == "SAFARI_ZONE_REST_HOUSE_4"@ {
        Some(147u8)
    } else if name == "SAFFRON_GYM"@ {
        Some(149u8)
    } else if name == "SAFFRON_POKECENTER"@ {
        Some(150u8)
    } else if name == "SAFFRON_MART"@ {
        Some(151u8)
    } else if name == "SILPH_CO_ENTRANCE"@ {
        Some(152u8)
    } else if name == "SAFFRON_HOUSE_1"@ {
        Some(153u8)
    } else if name == "SAFFRON_HOUSE_2"@ {
        Some(154u8)
    } else if name == "FIGHTING_DOJO"@ {
        Some(155u8)
    } else if name == "SAFFRON_HOUSE_3"@ {
        Some(156u8)
    } else if name == "CINNABAR_GYM"@ {
        Some(158u8)
    } else if name == "CINNABAR_POKECENTER"@ {
        Some(159u8)
    } else if name == "CINNABAR_MART"@ {
        Some(160u8)
    } else if name == "CINNABAR_LAB"@ {
        Some(161u8)
    } else if name == "CINNABAR_LAB_TRADE_ROOM"@ {
        Some(162u8)
    } else if name == "CINNABAR_LAB_FOSSIL_ROOM"@ {
        Some(163u8)
    } else if name == "CINNABAR_LAB_METRONOME_ROOM"@ {
        Some(164u8)
    } else if name == "CINNABAR_POKEMON_CENTER"@ {
        Some(165u8)
    } else if name == "POKEMON_MANSION_1F"@ {
        Some(166u8)
    } else if name == "POKEMON_MANSION_2F"@ {
        Some(167u8)
    } else if name == "POKEMON_MANSION_3F"@ {
        Some(168u8)
    } else if name == "POKEMON_MANSION_B1F"@ {
        Some(169u8)
    } else if name == "INDIGO_PLATEAU_LOBBY"@ {
        Some(170u8)
    } else if name == "LORELEIS_ROOM"@ {
        Some(171u8)
    } else if name == "BRUNOS_ROOM"@ {
        Some(172u8)
    } else if name == "AGATHAS_ROOM"@ {
        Some(173u8)
    } else if name == "LANCES_ROOM"@ {
        Some(174u8)
    } else if name == "HALL_OF_FAME"@ {
        Some(175u8)
    } else if name == "POWER_PLANT"@ {
        Some(198u8)
    } else if name == "VICTORY_ROAD_1F"@ {
        Some(199u8)
    } else if name == "VICTORY_ROAD_2F"@ {
        Some(200u8)
    } else if name == "VICTORY_ROAD_3F"@ {
        Some(201u8)
    } else if name == "ROCK_TUNNEL_1F"@ {
        Some(208u8)
    } else if name == "ROCK_TUNNEL_B1F"@ {
        Some(209u8)
    } else if name == "SEAFOAM_ISLANDS_1F"@ {
        Some(210u8)
    } else if name == "SEAFOAM_ISLANDS_B1F"@ {
        Some(211u8)
    } else if name == "SEAFOAM_ISLANDS_B2F"@ {
        Some(212u8)
    } else if name == "SEAFOAM_ISLANDS_B3F"@ {
        Some(213u8)
    } else if name == "SEAFOAM_ISLANDS_B4F"@ {
        Some(214u8)
    } else if name == "POKEMON_LEAGUE_GATE"@ {
        Some(215u8)
    } else if name == "BILLS_HOUSE"@ {
        Some(217u8)
    } else if name == "UNKNOWN_DUNGEON_1F"@ {
        Some(228u8)
    } else if name == "UNKNOWN_DUNGEON_2F"@ {
        Some(229u8)
    } else if name == "UNKNOWN_DUNGEON_B1F"@ {
        Some(230u8)
    } else if name == "TRADE_CENTER"@ {
        Some(233u8)
    } else if name == "COLOSSEUM"@ {
        Some(234u8)
    } else {
        None
    }
}

proof fn lemma_map_id_named_inverts(id: u8)
    ensures
        map_name(id) != "UNKNOWN_MAP"@ ==> map_id_named(map_name(id)) == Some(id),
{
    lemma_map_fingerprints_0();
    lemma_map_fingerprints_1();
    lemma_map_fingerprints_2();
    lemma_map_fingerprints_3();
}

/// Distinct map IDs have distinct names; every ID the game does not
/// define reads as `UNKNOWN_MAP`.
pub proof fn lemma_map_names_distinct(a: u8, b: u8)
    requires
        a != b,
    ensures
        map_name(a) != map_name(b) || map_name(a) == "UNKNOWN_MAP"@,
{
    lemma_map_id_named_inverts(a);
    lemma_map_id_named_inverts(b);
}

/// The length and a few characters of a species name: enough to tell the
/// game's species names apart.
spec fn species_fingerprint(s: Seq<char>) -> (nat, char, char, char) {
    (s.len(), char_or_space(s, 0), char_or_space(s, s.len() - 1), char_or_space(s, s.len() - 2))
}

proof fn lemma_species_fingerprints_0()
    ensures
        species_fingerprint("UNKNOWN"@) == (7nat, 'U', 'N', 'W'),
        species_fingerprint("RHYDON"@) == (6nat, 'R', 'N', 'O'),
        species_fingerprint("KANGASKHAN"@) == (10nat, 'K', 'N', 'A'),
        species_fingerprint("NIDORAN_M"@) == (9nat, 'N', 'M', '_'),
        species_fingerprint("CLEFAIRY"@) == (8nat, 'C', 'Y', 'R'),
        species_fingerprint("SPEAROW"@) == (7nat, 'S', 'W', 'O'),
        species_fingerprint("VOLTORB"@) == (7nat, 'V', 'B', 'R'),
        species_fingerprint("NIDOKING"@) == (8nat, 'N', 'G', 'N'),
        species_fingerprint("SLOWBRO"@) == (7nat, 'S', 'O', 'R'),
        species_fingerprint("IVYSAUR"@) == (7nat, 'I', 'R', 'U'),
        species_fingerprint("EXEGGUTOR"@) == (9nat, 'E', 'R', 'O'),
        species_fingerprint("LICKITUNG"@) == (9nat, 'L', 'G', 'N'),
        species_fingerprint("EXEGGCUTE"@) == (9nat, 'E', 'E', 'T'),
        species_fingerprint("GRIMER"@) == (6nat, 'G', 'R', 'E'),
        species_fingerprint("GENGAR"@) == (6nat, 'G', 'R', 'A'),
        species_fingerprint("NIDORAN_F"@) == (9nat, 'N', 'F', '_'),
        species_fingerprint("NIDOQUEEN"@) == (9nat, 'N', 'N', 'E'),
        species_fingerprint("CUBONE"@) == (6nat, 'C', 'E', 'N'),
        species_fingerprint("RHYHORN"@) == (7nat, 'R', 'N', 'R'),
        species_fingerprint("LAPRAS"@) == (6nat, 'L', 'S', 'A'),
        species_fingerprint("ARCANINE"@) == (8nat, 'A', 'E', 'N'),
        species_fingerprint("MEW"@) == (3nat, 'M', 'W', 'E'),
        species_fingerprint("GYARADOS"@) == (8nat, 'G', 'S', 'O'),
        species_fingerprint("SHELLDER"@) == (8nat, 'S', 'R', 'E'),
        species_fingerprint("TENTACOOL"@) == (9nat, 'T', 'L', 'O'),
        species_fingerprint("GASTLY"@) == (6nat, 'G', 'Y', 'L'),
        species_fingerprint("SCYTHER"@) == (7nat, 'S', 'R', 'E'),
        species_fingerprint("STARYU"@) == (6nat, 'S', 'U', 'Y'),
        species_fingerprint("BLASTOISE"@) == (9nat, 'B', 'E', 'S'),
        species_fingerprint("PINSIR"@) == (6nat, 'P', 'R', 'I'),
        species_fingerprint("TANGELA"@) == (7nat, 'T', 'A', 'L'),
        species_fingerprint("GROWLITHE"@) == (9nat, 'G', 'E', 'H'),
        species_fingerprint("ONIX"@) == (4nat, 'O', 'X', 'I'),
        species_fingerprint("FEAROW"@) == (6nat, 'F', 'W', 'O'),
        species_fingerprint("PIDGEY"@) == (6nat, 'P', 'Y', 'E'),
        species_fingerprint("SLOWPOKE"@) == (8nat, 'S', 'E', 'K'),
        species_fingerprint("KADABRA"@) == (7nat, 'K', 'A', 'R'),
        species_fingerprint("GRAVELER"@) == (8nat, 'G', 'R', 'E'),
        species_fingerprint("CHANSEY"@) == (7nat, 'C', 'Y', 'E'),
        species_fingerprint("MACHOKE"@) == (7nat, 'M', 'E', 'K'),
        species_fingerprint("MR_MIME"@) == (7nat, 'M', 'E', 'M'),
        species_fingerprint("HITMONLEE"@) == (9nat, 'H', 'E', 'E'),
        species_fingerprint("HITMONCHAN"@) == (10nat, 'H', 'N', 'A'),
        species_fingerprint("ARBOK"@) == (5nat, 'A', 'K', 'O'),
        species_fingerprint("PARASECT"@) == (8nat, 'P', 'T', 'C'),
        species_fingerprint("PSYDUCK"@) == (7nat, 'P', 'K', 'C'),
{
    reveal_strlit("UNKNOWN");
    reveal_strlit("RHYDON");
    reveal_strlit("KANGASKHAN");
    reveal_strlit("NIDORAN_M");
    reveal_strlit("CLEFAIRY");
    reveal_strlit("SPEAROW");
    reveal_strlit("VOLTORB");
    reveal_strlit("NIDOKING");
    reveal_strlit("SLOWBRO");
    reveal_strlit("IVYSAUR");
    reveal_strlit("EXEGGUTOR");
    reveal_strlit("LICKITUNG");
    reveal_strlit("EXEGGCUTE");
    reveal_strlit("GRIMER");
    reveal_strlit("GENGAR");
    reveal_strlit("NIDORAN_F");
    reveal_strlit("NIDOQUEEN");
    reveal_strlit("CUBONE");
    reveal_strlit("RHYHORN");
    reveal_strlit("LAPRAS");
    reveal_strlit("ARCANINE");
    reveal_strlit("MEW");
    reveal_strlit("GYARADOS");
    reveal_strlit("SHELLDER");
    reveal_strlit("TENTACOOL");
    reveal_strlit("GASTLY");
    reveal_strlit("SCYTHER");
    reveal_strlit("STARYU");
    reveal_strlit("BLASTOISE");
    reveal_strlit("PINSIR");
    reveal_strlit("TANGELA");
    reveal_strlit("GROWLITHE");
    reveal_strlit("ONIX");
    reveal_strlit("FEAROW");
    reveal_strlit("PIDGEY");
    reveal_strlit("SLOWPOKE");
    reveal_strlit("KADABRA");
    reveal_strlit("GRAVELER");
    reveal_strlit("CHANSEY");
    reveal_strlit("MACHOKE");
    reveal_strlit("MR_MIME");
    reveal_strlit("HITMONLEE");
    reveal_strlit("HITMONCHAN");
    reveal_strlit("ARBOK");
    reveal_strlit("PARASECT");
    reveal_strlit("PSYDUCK");
}

proof fn lemma_species_fingerprints_1()
    ensures
        species_fingerprint("DROWZEE"@) == (7nat, 'D', 'E', 'E'),
        species_fingerprint("GOLEM"@) == (5nat, 'G', 'M', 'E'),
        species_fingerprint("MAGMAR"@) == (6nat, 'M', 'R', 'A'),
        species_fingerprint("ELECTABUZZ"@) == (10nat, 'E', 'Z', 'Z'),
        species_fingerprint("MAGNETON"@) == (8nat, 'M', 'N', 'O'),
        species_fingerprint("KOFFING"@) == (7nat, 'K', 'G', 'N'),
        species_fingerprint("MANKEY"@) == (6nat, 'M', 'Y', 'E'),
        species_fingerprint("SEEL"@) == (4nat, 'S', 'L', 'E'),
        species_fingerprint("DIGLETT"@) == (7nat, 'D', 'T', 'T'),
        species_fingerprint("TAUROS"@) == (6nat, 'T', 'S', 'O'),
        species_fingerprint("FARFETCHD"@) == (9nat, 'F', 'D', 'H'),
        species_fingerprint("VENONAT"@) == (7nat, 'V', 'T', 'A'),
        species_fingerprint("DRAGONITE"@) == (9nat, 'D', 'E', 'T'),
        species_fingerprint("DODUO"@) == (5nat, 'D', 'O', 'U'),
        species_fingerprint("POLIWAG"@) == (7nat, 'P', 'G', 'A'),
        species_fingerprint("JYNX"@) == (4nat, 'J', 'X', 'N'),
        species_fingerprint("MOLTRES"@) == (7nat, 'M', 'S', 'E'),
        species_fingerprint("ARTICUNO"@) == (8nat, 'A', 'O', 'N'),
        species_fingerprint("ZAPDOS"@) == (6nat, 'Z', 'S', 'O'),
        species_fingerprint("DITTO"@) == (5nat, 'D', 'O', 'T'),
        species_fingerprint("MEOWTH"@) == (6nat, 'M', 'H', 'T'),
        species_fingerprint("KRABBY"@) == (6nat, 'K', 'Y', 'B'),
        species_fingerprint("VULPIX"@) == (6nat, 'V', 'X', 'I'),
        species_fingerprint("NINETALES"@) == (9nat, 'N', 'S', 'E'),
        species_fingerprint("PIKACHU"@) == (7nat, 'P', 'U', 'H'),
        species_fingerprint("RAICHU"@) == (6nat, 'R', 'U', 'H'),
        species_fingerprint("DRATINI"@) == (7nat, 'D', 'I', 'N'),
        species_fingerprint("DRAGONAIR"@) == (9nat, 'D', 'R', 'I'),
        species_fingerprint("KABUTO"@) == (6nat, 'K', 'O', 'T'),
        species_fingerprint("KABUTOPS"@) == (8nat, 'K', 'S', 'P'),
        species_fingerprint("HORSEA"@) == (6nat, 'H', 'A', 'E'),
        species_fingerprint("SEADRA"@) == (6nat, 'S', 'A', 'R'),
        species_fingerprint("SANDSHREW"@) == (9nat, 'S', 'W', 'E'),
        species_fingerprint("SANDSLASH"@) == (9nat, 'S', 'H', 'S'),
        species_fingerprint("OMANYTE"@) == (7nat, 'O', 'E', 'T'),
        species_fingerprint("OMASTAR"@) == (7nat, 'O', 'R', 'A'),
        species_fingerprint("JIGGLYPUFF"@) == (10nat, 'J', 'F', 'F'),
        species_fingerprint("WIGGLYTUFF"@) == (10nat, 'W', 'F', 'F'),
        species_fingerprint("EEVEE"@) == (5nat, 'E', 'E', 'E'),
        species_fingerprint("FLAREON"@) == (7nat, 'F', 'N', 'O'),
        species_fingerprint("JOLTEON"@) == (7nat, 'J', 'N', 'O'),
        species_fingerprint("VAPOREON"@) == (8nat, 'V', 'N', 'O'),
        species_fingerprint("MACHOP"@) == (6nat, 'M', 'P', 'O'),
        species_fingerprint("ZUBAT"@) == (5nat, 'Z', 'T', 'A'),
        species_fingerprint("EKANS"@) == (5nat, 'E', 'S', 'N'),
        species_fingerprint("PARAS"@) == (5nat, 'P', 'S', 'A'),
{
    reveal_strlit("DROWZEE");
    reveal_strlit("GOLEM");
    reveal_strlit("MAGMAR");
    reveal_strlit("ELECTABUZZ");
    reveal_strlit("MAGNETON");
    reveal_strlit("KOFFING");
    reveal_strlit("MANKEY");
    reveal_strlit("SEEL");
    reveal_strlit("DIGLETT");
    reveal_strlit("TAUROS");
    reveal_strlit("FARFETCHD");
    reveal_strlit("VENONAT");
    reveal_strlit("DRAGONITE");
    reveal_strlit("DODUO");
    reveal_strlit("POLIWAG");
    reveal_strlit("JYNX");
    reveal_strlit("MOLTRES");
    reveal_strlit("ARTICUNO");
    reveal_strlit("ZAPDOS");
    reveal_strlit("DITTO");
    reveal_strlit("MEOWTH");
    reveal_strlit("KRABBY");
    reveal_strlit("VULPIX");
    reveal_strlit("NINETALES");
    reveal_strlit("PIKACHU");
    reveal_strlit("RAICHU");
    reveal_strlit("DRATINI");
    reveal_strlit("DRAGONAIR");
    reveal_strlit("KABUTO");
    reveal_strlit("KABUTOPS");
    reveal_strlit("HORSEA");
    reveal_strlit("SEADRA");
    reveal_strlit("SANDSHREW");
    reveal_strlit("SANDSLASH");
    reveal_strlit("OMANYTE");
    reveal_strlit("OMASTAR");
    reveal_strlit("JIGGLYPUFF");
    reveal_strlit("WIGGLYTUFF");
    reveal_strlit("EEVEE");
    reveal_strlit("FLAREON");
    reveal_strlit("JOLTEON");
    reveal_strlit("VAPOREON");
    reveal_strlit("MACHOP");
    reveal_strlit("ZUBAT");
    reveal_strlit("EKANS");
    reveal_strlit("PARAS");
}

proof fn lemma_species_fingerprints_2()
    ensures
        species_fingerprint("POLIWHIRL"@) == (9nat, 'P', 'L', 'R'),
        species_fingerprint("POLIWRATH"@) == (9nat, 'P', 'H', 'T'),
        species_fingerprint("WEEDLE"@) == (6nat, 'W', 'E', 'L'),
        species_fingerprint("KAKUNA"@) == (6nat, 'K', 'A', 'N'),
        species_fingerprint("BEEDRILL"@) == (8nat, 'B', 'L', 'L'),
        species_fingerprint("DODRIO"@) == (6nat, 'D', 'O', 'I'),
        species_fingerprint("PRIMEAPE"@) == (8nat, 'P', 'E', 'P'),
        species_fingerprint("DUGTRIO"@) == (7nat, 'D', 'O', 'I'),
        species_fingerprint("VENOMOTH"@) == (8nat, 'V', 'H', 'T'),
        species_fingerprint("DEWGONG"@) == (7nat, 'D', 'G', 'N'),
        species_fingerprint("CATERPIE"@) == (8nat, 'C', 'E', 'I'),
        species_fingerprint("METAPOD"@) == (7nat, 'M', 'D', 'O'),
        species_fingerprint("BUTTERFREE"@) == (10nat, 'B', 'E', 'E'),
        species_fingerprint("MACHAMP"@) == (7nat, 'M', 'P', 'M'),
        species_fingerprint("GOLDUCK"@) == (7nat, 'G', 'K', 'C'),
        species_fingerprint("HYPNO"@) == (5nat, 'H', 'O', 'N'),
        species_fingerprint("GOLBAT"@) == (6nat, 'G', 'T', 'A'),
        species_fingerprint("MEWTWO"@) == (6nat, 'M', 'O', 'W'),
        species_fingerprint("SNORLAX"@) == (7nat, 'S', 'X', 'A'),
        species_fingerprint("MAGIKARP"@) == (8nat, 'M', 'P', 'R'),
        species_fingerprint("MUK"@) == (3nat, 'M', 'K', 'U'),
        species_fingerprint("KINGLER"@) == (7nat, 'K', 'R', 'E'),
        species_fingerprint("CLOYSTER"@) == (8nat, 'C', 'R', 'E'),
        species_fingerprint("ELECTRODE"@) == (9nat, 'E', 'E', 'D'),
        species_fingerprint("CLEFABLE"@) == (8nat, 'C', 'E', 'L'),
        species_fingerprint("WEEZING"@) == (7nat, 'W', 'G', 'N'),
        species_fingerprint("PERSIAN"@) == (7nat, 'P', 'N', 'A'),
        species_fingerprint("MAROWAK"@) == (7nat, 'M', 'K', 'A'),
        species_fingerprint("HAUNTER"@) == (7nat, 'H', 'R', 'E'),
        species_fingerprint("ABRA"@) == (4nat, 'A', 'A', 'R'),
        species_fingerprint("ALAKAZAM"@) == (8nat, 'A', 'M', 'A'),
        species_fingerprint("PIDGEOTTO"@) == (9nat, 'P', 'O', 'T'),
        species_fingerprint("PIDGEOT"@) == (7nat, 'P', 'T', 'O'),
        species_fingerprint("STARMIE"@) == (7nat, 'S', 'E', 'I'),
        species_fingerprint("BULBASAUR"@) == (9nat, 'B', 'R', 'U'),
        species_fingerprint("VENUSAUR"@) == (8nat, 'V', 'R', 'U'),
        species_fingerprint("TENTACRUEL"@) == (10nat, 'T', 'L', 'E'),
        species_fingerprint("GOLDEEN"@) == (7nat, 'G', 'N', 'E'),
        species_fingerprint("SEAKING"@) == (7nat, 'S', 'G', 'N'),
        species_fingerprint("PONYTA"@) == (6nat, 'P', 'A', 'T'),
        species_fingerprint("RAPIDASH"@) == (8nat, 'R', 'H', 'S'),
        species_fingerprint("RATTATA"@) == (7nat, 'R', 'A', 'T'),
        species_fingerprint("RATICATE"@) == (8nat, 'R', 'E', 'T'),
        species_fingerprint("NIDORINO"@) == (8nat, 'N', 'O', 'N'),
        species_fingerprint("NIDORINA"@) == (8nat, 'N', 'A', 'N'),
        species_fingerprint("GEODUDE"@) == (7nat, 'G', 'E', 'D'),
{
    reveal_strlit("POLIWHIRL");
    reveal_strlit("POLIWRATH");
    reveal_strlit("WEEDLE");
    reveal_strlit("KAKUNA");
    reveal_strlit("BEEDRILL");
    reveal_strlit("DODRIO");
    reveal_strlit("PRIMEAPE");
    reveal_strlit("DUGTRIO");
    reveal_strlit("VENOMOTH");
    reveal_strlit("DEWGONG");
    reveal_strlit("CATERPIE");
    reveal_strlit("METAPOD");
    reveal_strlit("BUTTERFREE");
    reveal_strlit("MACHAMP");
    reveal_strlit("GOLDUCK");
    reveal_strlit("HYPNO");
    reveal_strlit("GOLBAT");
    reveal_strlit("MEWTWO");
    reveal_strlit("SNORLAX");
    reveal_strlit("MAGIKARP");
    reveal_strlit("MUK");
    reveal_strlit("KINGLER");
    reveal_strlit("CLOYSTER");
    reveal_strlit("ELECTRODE");
    reveal_strlit("CLEFABLE");
    reveal_strlit("WEEZING");
    reveal_strlit("PERSIAN");
    reveal_strlit("MAROWAK");
    reveal_strlit("HAUNTER");
    reveal_strlit("ABRA");
    reveal_strlit("ALAKAZAM");
    reveal_strlit("PIDGEOTTO");
    reveal_strlit("PIDGEOT");
    reveal_strlit("STARMIE");
    reveal_strlit("BULBASAUR");
    reveal_strlit("VENUSAUR");
    reveal_strlit("TENTACRUEL");
    reveal_strlit("GOLDEEN");
    reveal_strlit("SEAKING");
    reveal_strlit("PONYTA");
    reveal_strlit("RAPIDASH");
    reveal_strlit("RATTATA");
    reveal_strlit("RATICATE");
    reveal_strlit("NIDORINO");
    reveal_strlit("NIDORINA");
    reveal_strlit("GEODUDE");
}

proof fn lemma_species_fingerprints_3()
    ensures
        species_fingerprint("PORYGON"@) == (7nat, 'P', 'N', 'O'),
        species_fingerprint("AERODACTYL"@) == (10nat, 'A', 'L', 'Y'),
        species_fingerprint("MAGNEMITE"@) == (9nat, 'M', 'E', 'T'),
        species_fingerprint("CHARMANDER"@) == (10nat, 'C', 'R', 'E'),
        species_fingerprint("SQUIRTLE"@) == (8nat, 'S', 'E', 'L'),
        species_fingerprint("CHARMELEON"@) == (10nat, 'C', 'N', 'O'),
        species_fingerprint("WARTORTLE"@) == (9nat, 'W', 'E', 'L'),
        species_fingerprint("CHARIZARD"@) == (9nat, 'C', 'D', 'R'),
        species_fingerprint("ODDISH"@) == (6nat, 'O', 'H', 'S'),
        species_fingerprint("GLOOM"@) == (5nat, 'G', 'M', 'O'),
        species_fingerprint("VILEPLUME"@) == (9nat, 'V', 'E', 'M'),
        species_fingerprint("BELLSPROUT"@) == (10nat, 'B', 'T', 'U'),
        species_fingerprint("WEEPINBELL"@) == (10nat, 'W', 'L', 'L'),
        species_fingerprint("VICTREEBEL"@) == (10nat, 'V', 'L', 'E'),
{
    reveal_strlit("PORYGON");
    reveal_strlit("AERODACTYL");
    reveal_strlit("MAGNEMITE");
    reveal_strlit("CHARMANDER");
    reveal_strlit("SQUIRTLE");
    reveal_strlit("CHARMELEON");
    reveal_strlit("WARTORTLE");
    reveal_strlit("CHARIZARD");
    reveal_strlit("ODDISH");
    reveal_strlit("GLOOM");
    reveal_strlit("VILEPLUME");
    reveal_strlit("BELLSPROUT");
    reveal_strlit("WEEPINBELL");
    reveal_strlit("VICTREEBEL");
}

/// The species ID a species name belongs to.
spec fn species_id_named(name: Seq<char>) -> Option<u8> {
    if name == "UNKNOWN"@ {
        Some(0u8)
    } else if name == "RHYDON"@ {
        Some(1u8)
    } else if name == "KANGASKHAN"@ {
        Some(2u8)
    } else if name == "NIDORAN_M"@ {
        Some(3u8)
    } else if name == "CLEFAIRY"@ {
        Some(4u8)
    } else if name == "SPEAROW"@ {
        Some(5u8)
    } else if name == "VOLTORB"@ {
        Some(6u8)
    } else if name == "NIDOKING"@ {
        Some(7u8)
    } else if name == "SLOWBRO"@ {
        Some(8u8)
    } else if name == "IVYSAUR"@ {
        Some(9u8)
    } else if name == "EXEGGUTOR"@ {
        Some(10u8)
    } else if name == "LICKITUNG"@ {
        Some(11u8)
    } else if name == "EXEGGCUTE"@ {
        Some(12u8)
    } else if name == "GRIMER"@ {
        Some(13u8)
    } else if name == "GENGAR"@ {
        Some(14u8)
    } else if name == "NIDORAN_F"@ {
        Some(15u8)
    } else if name == "NIDOQUEEN"@ {
        Some(16u8)
    } else if name == "CUBONE"@ {
        Some(17u8)
    } else if name == "RHYHORN"@ {
        Some(18u8)
    } else if name == "LAPRAS"@ {
        Some(19u8)
    } else if name == "ARCANINE"@ {
        Some(20u8)
    } else if name == "MEW"@ {
        Some(21u8)
    } else if name == "GYARADOS"@ {
        Some(22u8)
    } else if name == "SHELLDER"@ {
        Some(23u8)
    } else if name == "TENTACOOL"@ {
        Some(24u8)
    } else if name == "GASTLY"@ {
        Some(25u8)
    } else if name == "SCYTHER"@ {
        Some(26u8)
    } else if name == "STARYU"@ {
        Some(27u8)
    } else if name == "BLASTOISE"@ {
        Some(28u8)
    } else if name == "PINSIR"@ {
        Some(29u8)
    } else if name == "TANGELA"@ {
        Some(30u8)
    } else if name == "GROWLITHE"@ {
        Some(33u8)
    } else if name == "ONIX"@ {
        Some(34u8)
    } else if name == "FEAROW"@ {
        Some(35u8)
    } else if name == "PIDGEY"@ {
        Some(36u8)
    } else if name == "SLOWPOKE"@ {
        Some(37u8)
    } else if name == "KADABRA"@ {
        Some(38u8)
    } else if name == "GRAVELER"@ {
        Some(39u8)
    } else if name == "CHANSEY"@ {
        Some(40u8)
    } else if name == "MACHOKE"@ {
        Some(41u8)
    } else if name == "MR_MIME"@ {
        Some(42u8)
    } else if name == "HITMONLEE"@ {
        Some(43u8)
    } else if name == "HITMONCHAN"@ {
        Some(44u8)
    } else if name == "ARBOK"@ {
        Some(45u8)
    } else if name == "PARASECT"@ {
        Some(46u8)
    } else if name == "PSYDUCK"@ {
        Some(47u8)
    } else if name == "DROWZEE"@ {
        Some(48u8)
    } else if name == "GOLEM"@ {
        Some(49u8)
    } else if name == "MAGMAR"@ {
        Some(51u8)
    } else if name == "ELECTABUZZ"@ {
        Some(53u8)
    } else if name == "MAGNETON"@ {
        Some(54u8)
    } else if name == "KOFFING"@ {
        Some(55u8)
    } else if name == "MANKEY"@ {
        Some(57u8)
    } else if name == "SEEL"@ {
        Some(58u8)
    } else if name == "DIGLETT"@ {
        Some(59u8)
    } else if name == "TAUROS"@ {
        Some(60u8)
    } else if name == "FARFETCHD"@ {
        Some(64u8)
    } else if name == "VENONAT"@ {
        Some(65u8)
    } else if name == "DRAGONITE"@ {
        Some(66u8)
    } else if name == "DODUO"@ {
        Some(70u8)
    } else if name == "POLIWAG"@ {
        Some(71u8)
    } else if name == "JYNX"@ {
        Some(72u8)
    } else if name == "MOLTRES"@ {
        Some(73u8)
    } else if name == "ARTICUNO"@ {
        Some(74u8)
    } else if name == "ZAPDOS"@ {
        Some(75u8)
    } else if name == "DITTO"@ {
        Some(76u8)
    } else if name == "MEOWTH"@ {
        Some(77u8)
    } else if name == "KRABBY"@ {
        Some(78u8)
    } else if name == "VULPIX"@ {
        Some(82u8)
    } else if name == "NINETALES"@ {
        Some(83u8)
    } else if name == "PIKACHU"@ {
        Some(84u8)
    } else if name == "RAICHU"@ {
        Some(85u8)
    } else if name == "DRATINI"@ {
        Some(88u8)
    } else if name == "DRAGONAIR"@ {
        Some(89u8)
    } else if name == "KABUTO"@ {
        Some(90u8)
    } else if name == "KABUTOPS"@ {
        Some(91u8)
    } else if name == "HORSEA"@ {
        Some(92u8)
    } else if name == "SEADRA"@ {
        Some(93u8)
    } else if name == "SANDSHREW"@ {
        Some(96u8)
    } else if name == "SANDSLASH"@ {
        Some(97u8)
    } else if name == "OMANYTE"@ {
        Some(98u8)
    } else if name == "OMASTAR"@ {
        Some(99u8)
    } else if name == "JIGGLYPUFF"@ {
        Some(100u8)
    } else if name == "WIGGLYTUFF"@ {
        Some(101u8)
    } else if name == "EEVEE"@ {
        Some(102u8)
    } else if name == "FLAREON"@ {
        Some(103u8)
    } else if name == "JOLTEON"@ {
        Some(104u8)
    } else if name == "VAPOREON"@ {
        Some(105u8)
    } else if name == "MACHOP"@ {
        Some(106u8)
    } else if name == "ZUBAT"@ {
        Some(107u8)
    } else if name == "EKANS"@ {
        Some(108u8)
    } else if name == "PARAS"@ {
        Some(109u8)
    } else if name == "POLIWHIRL"@ {
        Some(110u8)
    } else if name == "POLIWRATH"@ {
        Some(111u8)
    } else if name == "WEEDLE"@ {
        Some(112u8)
    } else if name == "KAKUNA"@ {
        Some(113u8)
    } else if name == "BEEDRILL"@ {
        Some(114u8)
    } else if name == "DODRIO"@ {
        Some(116u8)
    } else if name == "PRIMEAPE"@ {
        Some(117u8)
    } else if name == "DUGTRIO"@ {
        Some(118u8)
    } else if name == "VENOMOTH"@ {
        Some(119u8)
    } else if name == "DEWGONG"@ {
        Some(120u8)
    } else if name == "CATERPIE"@ {
        Some(123u8)
    } else if name == "METAPOD"@ {
        Some(124u8)
    } else if name == "BUTTERFREE"@ {
        Some(125u8)
    } else if name == "MACHAMP"@ {
        Some(126u8)
    } else if name == "GOLDUCK"@ {
        Some(128u8)
    } else if name == "HYPNO"@ {
        Some(129u8)
    } else if name == "GOLBAT"@ {
        Some(130u8)
    } else if name == "MEWTWO"@ {
        Some(131u8)
    } else if name == "SNORLAX"@ {
        Some(132u8)
    } else if name == "MAGIKARP"@ {
        Some(133u8)
    } else if name == "MUK"@ {
        Some(136u8)
    } else if name == "KINGLER"@ {
        Some(138u8)
    } else if name == "CLOYSTER"@ {
        Some(139u8)
    } else if name == "ELECTRODE"@ {
        Some(141u8)
    } else if name == "CLEFABLE"@ {
        Some(142u8)
    } else if name == "WEEZING"@ {
        Some(143u8)
    } else if name == "PERSIAN"@ {
        Some(144u8)
    } else if name == "MAROWAK"@ {
        Some(145u8)
    } else if name == "HAUNTER"@ {
        Some(147u8)
    } else if name == "ABRA"@ {
        Some(148u8)
    } else if name == "ALAKAZAM"@ {
        Some(149u8)
    } else if name == "PIDGEOTTO"@ {
        Some(150u8)
    } else if name == "PIDGEOT"@ {
        Some(151u8)
    } else if name == "STARMIE"@ {
        Some(152u8)
    } else if name == "BULBASAUR"@ {
        Some(153u8)
    } else if name == "VENUSAUR"@ {
        Some(154u8)
    } else if name == "TENTACRUEL"@ {
        Some(155u8)
    } else if name == "GOLDEEN"@ {
        Some(157u8)
    } else if name == "SEAKING"@ {
        Some(158u8)
    } else if name == "PONYTA"@ {
        Some(163u8)
    } else if name == "RAPIDASH"@ {
        Some(164u8)
    } else if name == "RATTATA"@ {
        Some(165u8)
    } else if name == "RATICATE"@ {
        Some(166u8)
    } else if name == "NIDORINO"@ {
        Some(167u8)
    } else if name == "NIDORINA"@ {
        Some(168u8)
    } else if name == "GEODUDE"@ {
        Some(169u8)
    } else if name == "PORYGON"@ {
        Some(170u8)
    } else if name == "AERODACTYL"@ {
        Some(171u8)
    } else if name == "MAGNEMITE"@ {
        Some(173u8)
    } else if name == "CHARMANDER"@ {
        Some(176u8)
    } else if name == "SQUIRTLE"@ {
        Some(177u8)
    } else if name == "CHARMELEON"@ {
        Some(178u8)
    } else if name == "WARTORTLE"@ {
        Some(179u8)
    } else if name == "CHARIZARD"@ {
        Some(180u8)
    } else if name == "ODDISH"@ {
        Some(185u8)
    } else if name == "GLOOM"@ {
        Some(186u8)
    } else if name == "VILEPLUME"@ {
        Some(187u8)
    } else if name == "BELLSPROUT"@ {
        Some(188u8)
    } else if name == "WEEPINBELL"@ {
        Some(189u8)
    } else if name == "VICTREEBEL"@ {
        Some(190u8)
    } else {
        None
    }
}

proof fn lemma_species_id_named_inverts(id: u8)
    ensures
        species_name(id) != "UNKNOWN"@ ==> species_id_named(species_name(id)) == Some(id),
{
    lemma_species_fingerprints_0();
    lemma_species_fingerprints_1();
    lemma_species_fingerprints_2();
    lemma_species_fingerprints_3();
}

/// Distinct species IDs have distinct names; every ID the game does not
/// define reads as `UNKNOWN`.
pub proof fn lemma_species_names_distinct(a: u8, b: u8)
    requires
        a != b,
    ensures
        species_name(a) != species_name(b) || species_name(a) == "UNKNOWN"@,
{
    lemma_species_id_named_inverts(a);
    lemma_species_id_named_inverts(b);
}

/// The length and a few characters of a item name: enough to tell the
/// game's items names apart.
spec fn item_fingerprint(s: Seq<char>) -> (nat, char, char, char, char) {
    (s.len(), char_or_space(s, 0), char_or_space(s, s.len() - 1), char_or_space(s, s.len() - 2), char_or_space(s, s.len() - 3))
}

proof fn lemma_item_fingerprints_0()
    ensures
        item_fingerprint("MASTER_BALL"@) == (11nat, 'M', 'L', 'L', 'A'),
        item_fingerprint("ULTRA_BALL"@) == (10nat, 'U', 'L', 'L', 'A'),
        item_fingerprint("GREAT_BALL"@) == (10nat, 'G', 'L', 'L', 'A'),
        item_fingerprint("POKE_BALL"@) == (9nat, 'P', 'L', 'L', 'A'),
        item_fingerprint("TOWN_MAP"@) == (8nat, 'T', 'P', 'A', 'M'),
        item_fingerprint("BICYCLE"@) == (7nat, 'B', 'E', 'L', 'C'),
        item_fingerprint("SURFBOARD"@) == (9nat, 'S', 'D', 'R', 'A'),
        item_fingerprint("SAFARI_BALL"@) == (11nat, 'S', 'L', 'L', 'A'),
        item_fingerprint("POKEDEX"@) == (7nat, 'P', 'X', 'E', 'D'),
        item_fingerprint("MOON_STONE"@) == (10nat, 'M', 'E', 'N', 'O'),
        item_fingerprint("ANTIDOTE"@) == (8nat, 'A', 'E', 'T', 'O'),
        item_fingerprint("BURN_HEAL"@) == (9nat, 'B', 'L', 'A', 'E'),
        item_fingerprint("ICE_HEAL"@) == (8nat, 'I', 'L', 'A', 'E'),
        item_fingerprint("AWAKENING"@) == (9nat, 'A', 'G', 'N', 'I'),
        item_fingerprint("PARLYZ_HEAL"@) == (11nat, 'P', 'L', 'A', 'E'),
        item_fingerprint("FULL_RESTORE"@) == (12nat, 'F', 'E', 'R', 'O'),
        item_fingerprint("MAX_POTION"@) == (10nat, 'M', 'N', 'O', 'I'),
        item_fingerprint("HYPER_POTION"@) == (12nat, 'H', 'N', 'O', 'I'),
        item_fingerprint("SUPER_POTION"@) == (12nat, 'S', 'N', 'O', 'I'),
        item_fingerprint("POTION"@) == (6nat, 'P', 'N', 'O', 'I'),
        item_fingerprint("BOULDER_BADGE"@) == (13nat, 'B', 'E', 'G', 'D'),
        item_fingerprint("CASCADE_BADGE"@) == (13nat, 'C', 'E', 'G', 'D'),
        item_fingerprint("THUNDER_BADGE"@) == (13nat, 'T', 'E', 'G', 'D'),
        item_fingerprint("RAINBOW_BADGE"@) == (13nat, 'R', 'E', 'G', 'D'),
        item_fingerprint("SOUL_BADGE"@) == (10nat, 'S', 'E', 'G', 'D'),
        item_fingerprint("MARSH_BADGE"@) == (11nat, 'M', 'E', 'G', 'D'),
        item_fingerprint("VOLCANO_BADGE"@) == (13nat, 'V', 'E', 'G', 'D'),
        item_fingerprint("EARTH_BADGE"@) == (11nat, 'E', 'E', 'G', 'D'),
        item_fingerprint("ESCAPE_ROPE"@) == (11nat, 'E', 'E', 'P', 'O'),
        item_fingerprint("REPEL"@) == (5nat, 'R', 'L', 'E', 'P'),
        item_fingerprint("OLD_AMBER"@) == (9nat, 'O', 'R', 'E', 'B'),
        item_fingerprint("FIRE_STONE"@) == (10nat, 'F', 'E', 'N', 'O'),
        item_fingerprint("THUNDER_STONE"@) == (13nat, 'T', 'E', 'N', 'O'),
        item_fingerprint("WATER_STONE"@) == (11nat, 'W', 'E', 'N', 'O'),
        item_fingerprint("HP_UP"@) == (5nat, 'H', 'P', 'U', '_'),
        item_fingerprint("PROTEIN"@) == (7nat, 'P', 'N', 'I', 'E'),
        item_fingerprint("IRON"@) == (4nat, 'I', 'N', 'O', 'R'),
        item_fingerprint("CARBOS"@) == (6nat, 'C', 'S', 'O', 'B'),
        item_fingerprint("CALCIUM"@) == (7nat, 'C', 'M', 'U', 'I'),
        item_fingerprint("RARE_CANDY"@) == (10nat, 'R', 'Y', 'D', 'N'),
        item_fingerprint("DOME_FOSSIL"@) == (11nat, 'D', 'L', 'I', 'S'),
        item_fingerprint("HELIX_FOSSIL"@) == (12nat, 'H', 'L', 'I', 'S'),
        item_fingerprint("SECRET_KEY"@) == (10nat, 'S', 'Y', 'E', 'K'),
        item_fingerprint("BIKE_VOUCHER"@) == (12nat, 'B', 'R', 'E', 'H'),
        item_fingerprint("X_ACCURACY"@) == (10nat, 'X', 'Y', 'C', 'A'),
        item_fingerprint("LEAF_STONE"@) == (10nat, 'L', 'E', 'N', 'O'),
{
    reveal_strlit("MASTER_BALL");
    reveal_strlit("ULTRA_BALL");
    reveal_strlit("GREAT_BALL");
    reveal_strlit("POKE_BALL");
    reveal_strlit("TOWN_MAP");
    reveal_strlit("BICYCLE");
    reveal_strlit("SURFBOARD");
    reveal_strlit("SAFARI_BALL");
    reveal_strlit("POKEDEX");
    reveal_strlit("MOON_STONE");
    reveal_strlit("ANTIDOTE");
    reveal_strlit("BURN_HEAL");
    reveal_strlit("ICE_HEAL");
    reveal_strlit("AWAKENING");
    reveal_strlit("PARLYZ_HEAL");
    reveal_strlit("FULL_RESTORE");
    reveal_strlit("MAX_POTION");
    reveal_strlit("HYPER_POTION");
    reveal_strlit("SUPER_POTION");
    reveal_strlit("POTION");
    reveal_strlit("BOULDER_BADGE");
    reveal_strlit("CASCADE_BADGE");
    reveal_strlit("THUNDER_BADGE");
    reveal_strlit("RAINBOW_BADGE");
    reveal_strlit("SOUL_BADGE");
    reveal_strlit("MARSH_BADGE");
    reveal_strlit("VOLCANO_BADGE");
    reveal_strlit("EARTH_BADGE");
    reveal_strlit("ESCAPE_ROPE");
    reveal_strlit("REPEL");
    reveal_strlit("OLD_AMBER");
    reveal_strlit("FIRE_STONE");
    reveal_strlit("THUNDER_STONE");
    reveal_strlit("WATER_STONE");
    reveal_strlit("HP_UP");
    reveal_strlit("PROTEIN");
    reveal_strlit("IRON");
    reveal_strlit("CARBOS");
    reveal_strlit("CALCIUM");
    reveal_strlit("RARE_CANDY");
    reveal_strlit("DOME_FOSSIL");
    reveal_strlit("HELIX_FOSSIL");
    reveal_strlit("SECRET_KEY");
    reveal_strlit("BIKE_VOUCHER");
    reveal_strlit("X_ACCURACY");
    reveal_strlit("LEAF_STONE");
}

proof fn lemma_item_fingerprints_1()
    ensures
        item_fingerprint("CARD_KEY"@) == (8nat, 'C', 'Y', 'E', 'K'),
        item_fingerprint("NUGGET"@) == (6nat, 'N', 'T', 'E', 'G'),
        item_fingerprint("PP_UP"@) == (5nat, 'P', 'P', 'U', '_'),
        item_fingerprint("POKE_DOLL"@) == (9nat, 'P', 'L', 'L', 'O'),
        item_fingerprint("FULL_HEAL"@) == (9nat, 'F', 'L', 'A', 'E'),
        item_fingerprint("REVIVE"@) == (6nat, 'R', 'E', 'V', 'I'),
        item_fingerprint("MAX_REVIVE"@) == (10nat, 'M', 'E', 'V', 'I'),
        item_fingerprint("GUARD_SPEC"@) == (10nat, 'G', 'C', 'E', 'P'),
        item_fingerprint("SUPER_REPEL"@) == (11nat, 'S', 'L', 'E', 'P'),
        item_fingerprint("MAX_REPEL"@) == (9nat, 'M', 'L', 'E', 'P'),
        item_fingerprint("DIRE_HIT"@) == (8nat, 'D', 'T', 'I', 'H'),
        item_fingerprint("COIN"@) == (4nat, 'C', 'N', 'I', 'O'),
        item_fingerprint("FRESH_WATER"@) == (11nat, 'F', 'R', 'E', 'T'),
        item_fingerprint("SODA_POP"@) == (8nat, 'S', 'P', 'O', 'P'),
        item_fingerprint("LEMONADE"@) == (8nat, 'L', 'E', 'D', 'A'),
        item_fingerprint("SS_TICKET"@) == (9nat, 'S', 'T', 'E', 'K'),
        item_fingerprint("GOLD_TEETH"@) == (10nat, 'G', 'H', 'T', 'E'),
        item_fingerprint("X_ATTACK"@) == (8nat, 'X', 'K', 'C', 'A'),
        item_fingerprint("X_DEFEND"@) == (8nat, 'X', 'D', 'N', 'E'),
        item_fingerprint("X_SPEED"@) == (7nat, 'X', 'D', 'E', 'E'),
        item_fingerprint("X_SPECIAL"@) == (9nat, 'X', 'L', 'A', 'I'),
        item_fingerprint("COIN_CASE"@) == (9nat, 'C', 'E', 'S', 'A'),
        item_fingerprint("OAKS_PARCEL"@) == (11nat, 'O', 'L', 'E', 'C'),
        item_fingerprint("ITEMFINDER"@) == (10nat, 'I', 'R', 'E', 'D'),
        item_fingerprint("SILPH_SCOPE"@) == (11nat, 'S', 'E', 'P', 'O'),
        item_fingerprint("POKE_FLUTE"@) == (10nat, 'P', 'E', 'T', 'U'),
        item_fingerprint("LIFT_KEY"@) == (8nat, 'L', 'Y', 'E', 'K'),
        item_fingerprint("EXP_ALL"@) == (7nat, 'E', 'L', 'L', 'A'),
        item_fingerprint("OLD_ROD"@) == (7nat, 'O', 'D', 'O', 'R'),
        item_fingerprint("GOOD_ROD"@) == (8nat, 'G', 'D', 'O', 'R'),
        item_fingerprint("SUPER_ROD"@) == (9nat, 'S', 'D', 'O', 'R'),
        item_fingerprint("PP_UP_2"@) == (7nat, 'P', '2', '_', 'P'),
        item_fingerprint("ETHER"@) == (5nat, 'E', 'R', 'E', 'H'),
        item_fingerprint("MAX_ETHER"@) == (9nat, 'M', 'R', 'E', 'H'),
        item_fingerprint("ELIXIR"@) == (6nat, 'E', 'R', 'I', 'X'),
        item_fingerprint("MAX_ELIXIR"@) == (10nat, 'M', 'R', 'I', 'X'),
        item_fingerprint("HM_01"@) == (5nat, 'H', '1', '0', '_'),
        item_fingerprint("HM_02"@) == (5nat, 'H', '2', '0', '_'),
        item_fingerprint("HM_03"@) == (5nat, 'H', '3', '0', '_'),
        item_fingerprint("HM_04"@) == (5nat, 'H', '4', '0', '_'),
        item_fingerprint("HM_05"@) == (5nat, 'H', '5', '0', '_'),
        item_fingerprint("TM_01"@) == (5nat, 'T', '1', '0', '_'),
        item_fingerprint("TM_02"@) == (5nat, 'T', '2', '0', '_'),
        item_fingerprint("TM_03"@) == (5nat, 'T', '3', '0', '_'),
        item_fingerprint("TM_04"@) == (5nat, 'T', '4', '0', '_'),
        item_fingerprint("TM_05"@) == (5nat, 'T', '5', '0', '_'),
{
    reveal_strlit("CARD_KEY");
    reveal_strlit("NUGGET");
    reveal_strlit("PP_UP");
    reveal_strlit("POKE_DOLL");
    reveal_strlit("FULL_HEAL");
    reveal_strlit("REVIVE");
    reveal_strlit("MAX_REVIVE");
    reveal_strlit("GUARD_SPEC");
    reveal_strlit("SUPER_REPEL");
    reveal_strlit("MAX_REPEL");
    reveal_strlit("DIRE_HIT");
    reveal_strlit("COIN");
    reveal_strlit("FRESH_WATER");
    reveal_strlit("SODA_POP");
    reveal_strlit("LEMONADE");
    reveal_strlit("SS_TICKET");
    reveal_strlit("GOLD_TEETH");
    reveal_strlit("X_ATTACK");
    reveal_strlit("X_DEFEND");
    reveal_strlit("X_SPEED");
    reveal_strlit("X_SPECIAL");
    reveal_strlit("COIN_CASE");
    reveal_strlit("OAKS_PARCEL");
    reveal_strlit("ITEMFINDER");
    reveal_strlit("SILPH_SCOPE");
    reveal_strlit("POKE_FLUTE");
    reveal_strlit("LIFT_KEY");
    reveal_strlit("EXP_ALL");
    reveal_strlit("OLD_ROD");
    reveal_strlit("GOOD_ROD");
    reveal_strlit("SUPER_ROD");
    reveal_strlit("PP_UP_2");
    reveal_strlit("ETHER");
    reveal_strlit("MAX_ETHER");
    reveal_strlit("ELIXIR");
    reveal_strlit("MAX_ELIXIR");
    reveal_strlit("HM_01");
    reveal_strlit("HM_02");
    reveal_strlit("HM_03");
    reveal_strlit("HM_04");
    reveal_strlit("HM_05");
    reveal_strlit("TM_01");
    reveal_strlit("TM_02");
    reveal_strlit("TM_03");
    reveal_strlit("TM_04");
    reveal_strlit("TM_05");
}

proof fn lemma_item_fingerprints_2()
    ensures
        item_fingerprint("TM_06"@) == (5nat, 'T', '6', '0', '_'),
        item_fingerprint("TM_07"@) == (5nat, 'T', '7', '0', '_'),
        item_fingerprint("TM_08"@) == (5nat, 'T', '8', '0', '_'),
        item_fingerprint("TM_09"@) == (5nat, 'T', '9', '0', '_'),
        item_fingerprint("TM_10"@) == (5nat, 'T', '0', '1', '_'),
        item_fingerprint("TM_11"@) == (5nat, 'T', '1', '1', '_'),
        item_fingerprint("TM_12"@) == (5nat, 'T', '2', '1', '_'),
        item_fingerprint("TM_13"@) == (5nat, 'T', '3', '1', '_'),
        item_fingerprint("TM_14"@) == (5nat, 'T', '4', '1', '_'),
        item_fingerprint("TM_15"@) == (5nat, 'T', '5', '1', '_'),
        item_fingerprint("TM_16"@) == (5nat, 'T', '6', '1', '_'),
        item_fingerprint("TM_17"@) == (5nat, 'T', '7', '1', '_'),
        item_fingerprint("TM_18"@) == (5nat, 'T', '8', '1', '_'),
        item_fingerprint("TM_19"@) == (5nat, 'T', '9', '1', '_'),
        item_fingerprint("TM_20"@) == (5nat, 'T', '0', '2', '_'),
        item_fingerprint("TM_21"@) == (5nat, 'T', '1', '2', '_'),
        item_fingerprint("TM_22"@) == (5nat, 'T', '2', '2', '_'),
        item_fingerprint("TM_23"@) == (5nat, 'T', '3', '2', '_'),
        item_fingerprint("TM_24"@) == (5nat, 'T', '4', '2', '_'),
        item_fingerprint("TM_25"@) == (5nat, 'T', '5', '2', '_'),
        item_fingerprint("TM_26"@) == (5nat, 'T', '6', '2', '_'),
        item_fingerprint("TM_27"@) == (5nat, 'T', '7', '2', '_'),
        item_fingerprint("TM_28"@) == (5nat, 'T', '8', '2', '_'),
        item_fingerprint("TM_29"@) == (5nat, 'T', '9', '2', '_'),
        item_fingerprint("TM_30"@) == (5nat, 'T', '0', '3', '_'),
        item_fingerprint("TM_31"@) == (5nat, 'T', '1', '3', '_'),
        item_fingerprint("TM_32"@) == (5nat, 'T', '2', '3', '_'),
        item_fingerprint("TM_33"@) == (5nat, 'T', '3', '3', '_'),
        item_fingerprint("TM_34"@) == (5nat, 'T', '4', '3', '_'),
        item_fingerprint("TM_35"@) == (5nat, 'T', '5', '3', '_'),
        item_fingerprint("TM_36"@) == (5nat, 'T', '6', '3', '_'),
        item_fingerprint("TM_37"@) == (5nat, 'T', '7', '3', '_'),
        item_fingerprint("TM_38"@) == (5nat, 'T', '8', '3', '_'),
        item_fingerprint("TM_39"@) == (5nat, 'T', '9', '3', '_'),
        item_fingerprint("TM_40"@) == (5nat, 'T', '0', '4', '_'),
        item_fingerprint("TM_41"@) == (5nat, 'T', '1', '4', '_'),
        item_fingerprint("TM_42"@) == (5nat, 'T', '2', '4', '_'),
        item_fingerprint("TM_43"@) == (5nat, 'T', '3', '4', '_'),
        item_fingerprint("TM_44"@) == (5nat, 'T', '4', '4', '_'),
        item_fingerprint("TM_45"@) == (5nat, 'T', '5', '4', '_'),
        item_fingerprint("TM_46"@) == (5nat, 'T', '6', '4', '_'),
        item_fingerprint("TM_47"@) == (5nat, 'T', '7', '4', '_'),
        item_fingerprint("TM_48"@) == (5nat, 'T', '8', '4', '_'),
        item_fingerprint("TM_49"@) == (5nat, 'T', '9', '4', '_'),
        item_fingerprint("TM_50"@) == (5nat, 'T', '0', '5', '_'),
        item_fingerprint("UNKNOWN_ITEM"@) == (12nat, 'U', 'M', 'E', 'T'),
{
    reveal_strlit("TM_06");
    reveal_strlit("TM_07");
    reveal_strlit("TM_08");
    reveal_strlit("TM_09");
    reveal_strlit("TM_10");
    reveal_strlit("TM_11");
    reveal_strlit("TM_12");
    reveal_strlit("TM_13");
    reveal_strlit("TM_14");
    reveal_strlit("TM_15");
    reveal_strlit("TM_16");
    reveal_strlit("TM_17");
    reveal_strlit("TM_18");
    reveal_strlit("TM_19");
    reveal_strlit("TM_20");
    reveal_strlit("TM_21");
    reveal_strlit("TM_22");
    reveal_strlit("TM_23");
    reveal_strlit("TM_24");
    reveal_strlit("TM_25");
    reveal_strlit("TM_26");
    reveal_strlit("TM_27");
    reveal_strlit("TM_28");
    reveal_strlit("TM_29");
    reveal_strlit("TM_30");
    reveal_strlit("TM_31");
    reveal_strlit("TM_32");
    reveal_strlit("TM_33");
    reveal_strlit("TM_34");
    reveal_strlit("TM_35");
    reveal_strlit("TM_36");
    reveal_strlit("TM_37");
    reveal_strlit("TM_38");
    reveal_strlit("TM_39");
    reveal_strlit("TM_40");
    reveal_strlit("TM_41");
    reveal_strlit("TM_42");
    reveal_strlit("TM_43");
    reveal_strlit("TM_44");
    reveal_strlit("TM_45");
    reveal_strlit("TM_46");
    reveal_strlit("TM_47");
    reveal_strlit("TM_48");
    reveal_strlit("TM_49");
    reveal_strlit("TM_50");
    reveal_strlit("UNKNOWN_ITEM");
}

/// The item ID a item name belongs to.
spec fn item_id_named(name: Seq<char>) -> Option<u8> {
    if name == "MASTER_BALL"@ {
        Some(1u8)
    } else if name == "ULTRA_BALL"@ {
        Some(2u8)
    } else if name == "GREAT_BALL"@ {
        Some(3u8)
    } else if name == "POKE_BALL"@ {
        Some(4u8)
    } else if name == "TOWN_MAP"@ {
        Some(5u8)
    } else if name == "BICYCLE"@ {
        Some(6u8)
    } else if name == "SURFBOARD"@ {
        Some(7u8)
    } else if name == "SAFARI_BALL"@ {
        Some(8u8)
    } else if name == "POKEDEX"@ {
        Some(9u8)
    } else if name == "MOON_STONE"@ {
        Some(10u8)
    } else if name == "ANTIDOTE"@ {
        Some(11u8)
    } else if name == "BURN_HEAL"@ {
        Some(12u8)
    } else if name == "ICE_HEAL"@ {
        Some(13u8)
    } else if name == "AWAKENING"@ {
        Some(14u8)
    } else if name == "PARLYZ_HEAL"@ {
        Some(15u8)
    } else if name == "FULL_RESTORE"@ {
        Some(16u8)
    } else if name == "MAX_POTION"@ {
        Some(17u8)
    } else if name == "HYPER_POTION"@ {
        Some(18u8)
    } else if name == "SUPER_POTION"@ {
        Some(19u8)
    } else if name == "POTION"@ {
        Some(20u8)
    } else if name == "BOULDER_BADGE"@ {
        Some(21u8)
    } else if name == "CASCADE_BADGE"@ {
        Some(22u8)
    } else if name == "THUNDER_BADGE"@ {
        Some(23u8)
    } else if name == "RAINBOW_BADGE"@ {
        Some(24u8)
    } else if name == "SOUL_BADGE"@ {
        Some(25u8)
    } else if name == "MARSH_BADGE"@ {
        Some(26u8)
    } else if name == "VOLCANO_BADGE"@ {
        Some(27u8)
    } else if name == "EARTH_BADGE"@ {
        Some(28u8)
    } else if name == "ESCAPE_ROPE"@ {
        Some(29u8)
    } else if name == "REPEL"@ {
        Some(30u8)
    } else if name == "OLD_AMBER"@ {
        Some(31u8)
    } else if name == "FIRE_STONE"@ {
        Some(32u8)
    } else if name == "THUNDER_STONE"@ {
        Some(33u8)
    } else if name == "WATER_STONE"@ {
        Some(34u8)
    } else if name == "HP_UP"@ {
        Some(35u8)
    } else if name == "PROTEIN"@ {
        Some(36u8)
    } else if name == "IRON"@ {
        Some(37u8)
    } else if name == "CARBOS"@ {
        Some(38u8)
    } else if name == "CALCIUM"@ {
        Some(39u8)
    } else if name == "RARE_CANDY"@ {
        Some(40u8)
    } else if name == "DOME_FOSSIL"@ {
        Some(41u8)
    } else if name == "HELIX_FOSSIL"@ {
        Some(42u8)
    } else if name == "SECRET_KEY"@ {
        Some(43u8)
    } else if name == "BIKE_VOUCHER"@ {
        Some(45u8)
    } else if name == "X_ACCURACY"@ {
        Some(46u8)
    } else if name == "LEAF_STONE"@ {
        Some(47u8)
    } else if name == "CARD_KEY"@ {
        Some(48u8)
    } else if name == "NUGGET"@ {
        Some(49u8)
    } else if name == "PP_UP"@ {
        Some(50u8)
    } else if name == "POKE_DOLL"@ {
        Some(51u8)
    } else if name == "FULL_HEAL"@ {
        Some(52u8)
    } else if name == "REVIVE"@ {
        Some(53u8)
    } else if name == "MAX_REVIVE"@ {
        Some(54u8)
    } else if name == "GUARD_SPEC"@ {
        Some(55u8)
    } else if name == "SUPER_REPEL"@ {
        Some(56u8)
    } else if name == "MAX_REPEL"@ {
        Some(57u8)
    } else if name == "DIRE_HIT"@ {
        Some(58u8)
    } else if name == "COIN"@ {
        Some(59u8)
    } else if name == "FRESH_WATER"@ {
        Some(60u8)
    } else if name == "SODA_POP"@ {
        Some(61u8)
    } else if name == "LEMONADE"@ {
        Some(62u8)
    } else if name == "SS_TICKET"@ {
        Some(63u8)
    } else if name == "GOLD_TEETH"@ {
        Some(64u8)
    } else if name == "X_ATTACK"@ {
        Some(65u8)
    } else if name == "X_DEFEND"@ {
        Some(66u8)
    } else if name == "X_SPEED"@ {
        Some(67u8)
    } else if name == "X_SPECIAL"@ {
        Some(68u8)
    } else if name == "COIN_CASE"@ {
        Some(69u8)
    } else if name == "OAKS_PARCEL"@ {
        Some(70u8)
    } else if name == "ITEMFINDER"@ {
        Some(71u8)
    } else if name == "SILPH_SCOPE"@ {
        Some(72u8)
    } else if name == "POKE_FLUTE"@ {
        Some(73u8)
    } else if name == "LIFT_KEY"@ {
        Some(74u8)
    } else if name == "EXP_ALL"@ {
        Some(75u8)
    } else if name == "OLD_ROD"@ {
        Some(76u8)
    } else if name == "GOOD_ROD"@ {
        Some(77u8)
    } else if name == "SUPER_ROD"@ {
        Some(78u8)
    } else if name == "PP_UP_2"@ {
        Some(79u8)
    } else if name == "ETHER"@ {
        Some(80u8)
    } else if name == "MAX_ETHER"@ {
        Some(81u8)
    } else if name == "ELIXIR"@ {
        Some(82u8)
    } else if name == "MAX_ELIXIR"@ {
        Some(83u8)
    } else if name == "HM_01"@ {
        Some(196u8)
    } else if name == "HM_02"@ {
        Some(197u8)
    } else if name == "HM_03"@ {
        Some(198u8)
    } else if name == "HM_04"@ {
        Some(199u8)
    } else if name == "HM_05"@ {
        Some(200u8)
    } else if name == "TM_01"@ {
        Some(201u8)
    } else if name == "TM_02"@ {
        Some(202u8)
    } else if name == "TM_03"@ {
        Some(203u8)
    } else if name == "TM_04"@ {
        Some(204u8)
    } else if name == "TM_05"@ {
        Some(205u8)
    } else if name == "TM_06"@ {
        Some(206u8)
    } else if name == "TM_07"@ {
        Some(207u8)
    } else if name == "TM_08"@ {
        Some(208u8)
    } else if name == "TM_09"@ {
        Some(209u8)
    } else if name == "TM_10"@ {
        Some(210u8)
    } else if name == "TM_11"@ {
        Some(211u8)
    } else if name == "TM_12"@ {
        Some(212u8)
    } else if name == "TM_13"@ {
        Some(213u8)
    } else if name == "TM_14"@ {
        Some(214u8)
    } else if name == "TM_15"@ {
        Some(215u8)
    } else if name == "TM_16"@ {
        Some(216u8)
    } else if name == "TM_17"@ {
        Some(217u8)
    } else if name == "TM_18"@ {
        Some(218u8)
    } else if name == "TM_19"@ {
        Some(219u8)
    } else if name == "TM_20"@ {
        Some(220u8)
    } else if name == "TM_21"@ {
        Some(221u8)
    } else if name == "TM_22"@ {
        Some(222u8)
    } else if name == "TM_23"@ {
        Some(223u8)
    } else if name == "TM_24"@ {
        Some(224u8)
    } else if name == "TM_25"@ {
        Some(225u8)
    } else if name == "TM_26"@ {
        Some(226u8)
    } else if name == "TM_27"@ {
        Some(227u8)
    } else if name == "TM_28"@ {
        Some(228u8)
    } else if name == "TM_29"@ {
        Some(229u8)
    } else if name == "TM_30"@ {
        Some(230u8)
    } else if name == "TM_31"@ {
        Some(231u8)
    } else if name == "TM_32"@ {
        Some(232u8)
    } else if name == "TM_33"@ {
        Some(233u8)
    } else if name == "TM_34"@ {
        Some(234u8)
    } else if name == "TM_35"@ {
        Some(235u8)
    } else if name == "TM_36"@ {
        Some(236u8)
    } else if name == "TM_37"@ {
        Some(237u8)
    } else if name == "TM_38"@ {
        Some(238u8)
    } else if name == "TM_39"@ {
        Some(239u8)
    } else if name == "TM_40"@ {
        Some(240u8)
    } else if name == "TM_41"@ {
        Some(241u8)
    } else if name == "TM_42"@ {
        Some(242u8)
    } else if name == "TM_43"@ {
        Some(243u8)
    } else if name == "TM_44"@ {
        Some(244u8)
    } else if name == "TM_45"@ {
        Some(245u8)
    } else if name == "TM_46"@ {
        Some(246u8)
    } else if name == "TM_47"@ {
        Some(247u8)
    } else if name == "TM_48"@ {
        Some(248u8)
    } else if name == "TM_49"@ {
        Some(249u8)
    } else if name == "TM_50"@ {
        Some(250u8)
    } else {
        None
    }
}

proof fn lemma_item_id_named_inverts(id: u8)
    ensures
        item_name(id) != "UNKNOWN_ITEM"@ ==> item_id_named(item_name(id)) == Some(id),
{
    lemma_item_fingerprints_0();
    lemma_item_fingerprints_1();
    lemma_item_fingerprints_2();
}

/// Distinct item IDs have distinct names; every ID the game does not
/// define reads as `UNKNOWN_ITEM`.
pub proof fn lemma_item_names_distinct(a: u8, b: u8)
    requires
        a != b,
    ensures
        item_name(a) != item_name(b) || item_name(a) == "UNKNOWN_ITEM"@,
{
    lemma_item_id_named_inverts(a);
    lemma_item_id_named_inverts(b);
}

/// The towns and cities are the first eleven maps, in the game's order:
/// Pallet Town, Viridian City, Pewter City, Cerulean City, Lavender Town,
/// Vermilion City, Celadon City, Fuchsia City, Cinnabar Island, Indigo
/// Plateau and Saffron City.
pub proof fn lemma_town_map_ids()
    ensures
        map_name(0) == "PALLET_TOWN"@,
        map_name(1) == "VIRIDIAN_CITY"@,
        map_name(2) == "PEWTER_CITY"@,
        map_name(3) == "CERULEAN_CITY"@,
        map_name(4) == "LAVENDER_TOWN"@,
        map_name(5) == "VERMILION_CITY"@,
        map_name(6) == "CELADON_CITY"@,
        map_name(7) == "FUCHSIA_CITY"@,
        map_name(8) == "CINNABAR_ISLAND"@,
        map_name(9) == "INDIGO_PLATEAU"@,
        map_name(10) == "SAFFRON_CITY"@,
{
}

/// Maps 12 to 36 are the routes, numbered from 1: map `id` is `ROUTE_`
/// followed by `id - 11` in decimal.
pub proof fn lemma_route_map_ids(id: u8)
    requires
        12 <= id <= 36,
    ensures
        map_name(id) == "ROUTE_"@ + decimal((id - 11) as nat),
{
    reveal_strlit("ROUTE_");
    reveal_with_fuel(decimal, 3);
    match id {
        12 => {
            reveal_strlit("ROUTE_1");
            assert(map_name(id) =~= "ROUTE_"@ + decimal(1nat));
        },
        13 => {
            reveal_strlit("ROUTE_2");
            assert(map_name(id) =~= "ROUTE_"@ + decimal(2nat));
        },
        14 => {
            reveal_strlit("ROUTE_3");
            assert(map_name(id) =~= "ROUTE_"@ + decimal(3nat));
        },
        15 => {
            reveal_strlit("ROUTE_4");
            assert(map_name(id) =~= "ROUTE_"@ + decimal(4nat));
        },
        16 => {
            reveal_strlit("ROUTE_5");
            assert(map_name(id) =~= "ROUTE_"@ + decimal(5nat));
        },
        17 => {
            reveal_strlit("ROUTE_6");
            assert(map_name(id) =~= "ROUTE_"@ + decimal(6nat));
        },
        18 => {
            reveal_strlit("ROUTE_7");
            assert(map_name(id) =~= "ROUTE_"@ + decimal(7nat));
        },
        19 => {
            reveal_strlit("ROUTE_8");
            assert(map_name(id) =~= "ROUTE_"@ + decimal(8nat));
        },
        20 => {
            reveal_strlit("ROUTE_9");
            assert(map_name(id) =~= "ROUTE_"@ + decimal(9nat));
        },
        21 => {
            reveal_strlit("ROUTE_10");
            assert(map_name(id) =~= "ROUTE_"@ + decimal(10nat));
        },
        22 => {
            reveal_strlit("ROUTE_11");
            assert(map_name(id) =~= "ROUTE_"@ + decimal(11nat));
        },
        23 => {
            reveal_strlit("ROUTE_12");
            assert(map_name(id) =~= "ROUTE_"@ + decimal(12nat));
        },
        24 => {
            reveal_strlit("ROUTE_13");
            assert(map_name(id) =~= "ROUTE_"@ + decimal(13nat));
        },
        25 => {
            reveal_strlit("ROUTE_14");
            assert(map_name(id) =~= "ROUTE_"@ + decimal(14nat));
        },
        26 => {
            reveal_strlit("ROUTE_15");
            assert(map_name(id) =~= "ROUTE_"@ + decimal(15nat));
        },
        27 => {
            reveal_strlit("ROUTE_16");
            assert(map_name(id) =~= "ROUTE_"@ + decimal(16nat));
        },
        28 => {
            reveal_strlit("ROUTE_17");
            assert(map_name(id) =~= "ROUTE_"@ + decimal(17nat));
        },
        29 => {
            reveal_strlit("ROUTE_18");
            assert(map_name(id) =~= "ROUTE_"@ + decimal(18nat));
        },
        30 => {
            reveal_strlit("ROUTE_19");
            assert(map_name(id) =~= "ROUTE_"@ + decimal(19nat));
        },
        31 => {
            reveal_strlit("ROUTE_20");
            assert(map_name(id) =~= "ROUTE_"@ + decimal(20nat));
        },
        32 => {
            reveal_strlit("ROUTE_21");
            assert(map_name(id) =~= "ROUTE_"@ + decimal(21nat));
        },
        33 => {
            reveal_strlit("ROUTE_22");
            assert(map_name(id) =~= "ROUTE_"@ + decimal(22nat));
        },
        34 => {
            reveal_strlit("ROUTE_23");
            assert(map_name(id) =~= "ROUTE_"@ + decimal(23nat));
        },
        35 => {
            reveal_strlit("ROUTE_24");
            assert(map_name(id) =~= "ROUTE_"@ + decimal(24nat));
        },
        36 => {
            reveal_strlit("ROUTE_25");
            assert(map_name(id) =~= "ROUTE_"@ + decimal(25nat));
        },
        _ => {},
    }
}

} // verus!
