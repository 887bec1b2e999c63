//! Champion names: from the name an API gives to the name shown to a player
//! and to the address of the champion's icon.

use crate::text::{
    char_is_lowercase, char_is_uppercase, char_to_uppercase, chars_eq, chars_of, str_to_lowercase,
    string_of_range, trim, trimmed, uppercase_of,
};
use vstd::prelude::*;
use vstd::string::*;

verus! {

/// The release of the icon set that addresses point into.
pub const DDRAGON_VERSION: &'static str = "14.10.1";

/// Where the icon sets are served from.
pub const DDRAGON_BASE: &'static str = "https://ddragon.leagueoflegends.com/cdn";

/// What is known of a champion whose name needs more than a capital letter.
pub struct ChampionData {
    pub display_name: &'static str,
    pub ddragon_key: &'static str,
}

/// The shown name and the icon key of the champions whose names hold spaces,
/// apostrophes or other irregularities, by lower-case API name.
pub open spec fn special_champion(key: Seq<char>) -> Option<(Seq<char>, Seq<char>)> {
    if key == "aurelionsol"@ {
        Some(("Aurelion Sol"@, "AurelionSol"@))
    } else if key == "drmundo"@ {
        Some(("Dr. Mundo"@, "DrMundo"@))
    } else if key == "jarvaniv"@ {
        Some(("Jarvan IV"@, "JarvanIV"@))
    } else if key == "leesin"@ {
        Some(("Lee Sin"@, "LeeSin"@))
    } else if key == "masteryi"@ {
        Some(("Master Yi"@, "MasterYi"@))
    } else if key == "missfortune"@ {
        Some(("Miss Fortune"@, "MissFortune"@))
    } else if key == "tahmkench"@ {
        Some(("Tahm Kench"@, "TahmKench"@))
    } else if key == "twistedfate"@ {
        Some(("Twisted Fate"@, "TwistedFate"@))
    } else if key == "xinzhao"@ {
        Some(("Xin Zhao"@, "XinZhao"@))
    } else if key == "renataglasc"@ {
        Some(("Renata Glasc"@, "Renata"@))
    } else if key == "belveth"@ {
        Some(("Bel'Veth"@, "Belveth"@))
    } else if key == "chogath"@ {
        Some(("Cho'Gath"@, "Chogath"@))
    } else if key == "kaisa"@ {
        Some(("Kai'Sa"@, "Kaisa"@))
    } else if key == "kassadin"@ {
        Some(("Kassadin"@, "Kassadin"@))
    } else if key == "khazix"@ {
        Some(("Kha'Zix"@, "Khazix"@))
    } else if key == "kogmaw"@ {
        Some(("Kog'Maw"@, "KogMaw"@))
    } else if key == "ksante"@ {
        Some(("K'Sante"@, "KSante"@))
    } else if key == "reksai"@ {
        Some(("Rek'Sai"@, "RekSai"@))
    } else if key == "velkoz"@ {
        Some(("Vel'Koz"@, "Velkoz"@))
    } else if key == "nunu"@ {
        Some(("Nunu & Willump"@, "Nunu"@))
    } else if key == "nunuwillump"@ {
        Some(("Nunu & Willump"@, "Nunu"@))
    } else if key == "wukong"@ {
        Some(("Wukong"@, "MonkeyKing"@))
    } else if key == "monkeyking"@ {
        Some(("Wukong"@, "MonkeyKing"@))
    } else if key == "fiddlesticks"@ {
        Some(("Fiddlesticks"@, "Fiddlesticks"@))
    } else if key == "kayn"@ {
        Some(("Kayn"@, "Kayn"@))
    } else if key == "renata"@ {
        Some(("Renata Glasc"@, "Renata"@))
    } else if key == "blindmonk"@ {
        Some(("Lee Sin"@, "LeeSin"@))
    } else {
        None
    }
}

/// The icon key of the champions whose shown name is their icon key, by
/// lower-case API name.
pub open spec fn simple_champion(key: Seq<char>) -> Option<Seq<char>> {
    if key == "aatrox"@ {
        Some("Aatrox"@)
    } else if key == "ahri"@ {
        Some("Ahri"@)
    } else if key == "akali"@ {
        Some("Akali"@)
    } else if key == "akshan"@ {
        Some("Akshan"@)
    } else if key == "alistar"@ {
        Some("Alistar"@)
    } else if key == "ambessa"@ {
        Some("Ambessa"@)
    } else if key == "amumu"@ {
        Some("Amumu"@)
    } else if key == "anivia"@ {
        Some("Anivia"@)
    } else if key == "annie"@ {
        Some("Annie"@)
    } else if key == "aphelios"@ {
        Some("Aphelios"@)
    } else if key == "ashe"@ {
        Some("Ashe"@)
    } else if key == "aurora"@ {
        Some("Aurora"@)
    } else if key == "azir"@ {
        Some("Azir"@)
    } else if key == "bard"@ {
        Some("Bard"@)
    } else if key == "blitzcrank"@ {
        Some("Blitzcrank"@)
    } else if key == "brand"@ {
        Some("Brand"@)
    } else if key == "braum"@ {
        Some("Braum"@)
    } else if key == "briar"@ {
        Some("Briar"@)
    } else if key == "caitlyn"@ {
        Some("Caitlyn"@)
    } else if key == "camille"@ {
        Some("Camille"@)
    } else if key == "cassiopeia"@ {
        Some("Cassiopeia"@)
    } else if key == "corki"@ {
        Some("Corki"@)
    } else if key == "darius"@ {
        Some("Darius"@)
    } else if key == "diana"@ {
        Some("Diana"@)
    } else if key == "draven"@ {
        Some("Draven"@)
    } else if key == "ekko"@ {
        Some("Ekko"@)
    } else if key == "elise"@ {
        Some("Elise"@)
    } else if key == "evelynn"@ {
        Some("Evelynn"@)
    } else if key == "ezreal"@ {
        Some("Ezreal"@)
    } else if key == "fiora"@ {
        Some("Fiora"@)
    } else if key == "fizz"@ {
        Some("Fizz"@)
    } else if key == "galio"@ {
        Some("Galio"@)
    } else if key == "gangplank"@ {
        Some("Gangplank"@)
    } else if key == "garen"@ {
        Some("Garen"@)
    } else if key == "gnar"@ {
        Some("Gnar"@)
    } else if key == "gragas"@ {
        Some("Gragas"@)
    } else if key == "graves"@ {
        Some("Graves"@)
    } else if key == "gwen"@ {
        Some("Gwen"@)
    } else if key == "hecarim"@ {
        Some("Hecarim"@)
    } else if key == "heimerdinger"@ {
        Some("Heimerdinger"@)
    } else if key == "hwei"@ {
        Some("Hwei"@)
    } else if key == "illaoi"@ {
        Some("Illaoi"@)
    } else if key == "irelia"@ {
        Some("Irelia"@)
    } else if key == "ivern"@ {
        Some("Ivern"@)
    } else if key == "janna"@ {
        Some("Janna"@)
    } else if key == "jax"@ {
        Some("Jax"@)
    } else if key == "jayce"@ {
        Some("Jayce"@)
    } else if key == "jhin"@ {
        Some("Jhin"@)
    } else if key == "jinx"@ {
        Some("Jinx"@)
    } else if key == "kalista"@ {
        Some("Kalista"@)
    } else if key == "karma"@ {
        Some("Karma"@)
    } else if key == "karthus"@ {
        Some("Karthus"@)
    } else if key == "katarina"@ {
        Some("Katarina"@)
    } else if key == "kayle"@ {
        Some("Kayle"@)
    } else if key == "kennen"@ {
        Some("Kennen"@)
    } else if key == "kindred"@ {
        Some("Kindred"@)
    } else if key == "kled"@ {
        Some("Kled"@)
    } else if key == "leblanc"@ {
        Some("Leblanc"@)
    } else if key == "leona"@ {
        Some("Leona"@)
    } else if key == "lillia"@ {
        Some("Lillia"@)
    } else if key == "lissandra"@ {
        Some("Lissandra"@)
    } else if key == "lucian"@ {
        Some("Lucian"@)
    } else if key == "lulu"@ {
        Some("Lulu"@)
    } else if key == "lux"@ {
        Some("Lux"@)
    } else if key == "malphite"@ {
        Some("Malphite"@)
    } else if key == "malzahar"@ {
        Some("Malzahar"@)
    } else if key == "maokai"@ {
        Some("Maokai"@)
    } else if key == "milio"@ {
        Some("Milio"@)
    } else if key == "mordekaiser"@ {
        Some("Mordekaiser"@)
    } else if key == "morgana"@ {
        Some("Morgana"@)
    } else if key == "naafiri"@ {
        Some("Naafiri"@)
    } else if key == "nami"@ {
        Some("Nami"@)
    } else if key == "nasus"@ {
        Some("Nasus"@)
    } else if key == "nautilus"@ {
        Some("Nautilus"@)
    } else if key == "neeko"@ {
        Some("Neeko"@)
    } else if key == "nidalee"@ {
        Some("Nidalee"@)
    } else if key == "nilah"@ {
        Some("Nilah"@)
    } else if key == "nocturne"@ {
        Some("Nocturne"@)
    } else if key == "olaf"@ {
        Some("Olaf"@)
    } else if key == "orianna"@ {
        Some("Orianna"@)
    } else if key == "ornn"@ {
        Some("Ornn"@)
    } else if key == "pantheon"@ {
        Some("Pantheon"@)
    } else if key == "poppy"@ {
        Some("Poppy"@)
    } else if key == "pyke"@ {
        Some("Pyke"@)
    } else if key == "qiyana"@ {
        Some("Qiyana"@)
    } else if key == "quinn"@ {
        Some("Quinn"@)
    } else if key == "rakan"@ {
        Some("Rakan"@)
    } else if key == "rammus"@ {
        Some("Rammus"@)
    } else if key == "rell"@ {
        Some("Rell"@)
    } else if key == "renekton"@ {
        Some("Renekton"@)
    } else if key == "rengar"@ {
        Some("Rengar"@)
    } else if key == "riven"@ {
        Some("Riven"@)
    } else if key == "rumble"@ {
        Some("Rumble"@)
    } else if key == "ryze"@ {
        Some("Ryze"@)
    } else if key == "samira"@ {
        Some("Samira"@)
    } else if key == "sejuani"@ {
        Some("Sejuani"@)
    } else if key == "senna"@ {
        Some("Senna"@)
    } else if key == "seraphine"@ {
        Some("Seraphine"@)
    } else if key == "sett"@ {
        Some("Sett"@)
    } else if key == "shaco"@ {
        Some("Shaco"@)
    } else if key == "shen"@ {
        Some("Shen"@)
    } else if key == "shyvana"@ {
        Some("Shyvana"@)
    } else if key == "singed"@ {
        Some("Singed"@)
    } else if key == "sion"@ {
        Some("Sion"@)
    } else if key == "sivir"@ {
        Some("Sivir"@)
    } else if key == "skarner"@ {
        Some("Skarner"@)
    } else if key == "smolder"@ {
        Some("Smolder"@)
    } else if key == "sona"@ {
        Some("Sona"@)
    } else if key == "soraka"@ {
        Some("Soraka"@)
    } else if key == "swain"@ {
        Some("Swain"@)
    } else if key == "sylas"@ {
        Some("Sylas"@)
    } else if key == "syndra"@ {
        Some("Syndra"@)
    } else if key == "taliyah"@ {
        Some("Taliyah"@)
    } else if key == "talon"@ {
        Some("Talon"@)
    } else if key == "taric"@ {
        Some("Taric"@)
    } else if key == "teemo"@ {
        Some("Teemo"@)
    } else if key == "thresh"@ {
        Some("Thresh"@)
    } else if key == "tristana"@ {
        Some("Tristana"@)
    } else if key == "trundle"@ {
        Some("Trundle"@)
    } else if key == "tryndamere"@ {
        Some("Tryndamere"@)
    } else if key == "udyr"@ {
        Some("Udyr"@)
    } else if key == "urgot"@ {
        Some("Urgot"@)
    } else if key == "varus"@ {
        Some("Varus"@)
    } else if key == "vayne"@ {
        Some("Vayne"@)
    } else if key == "veigar"@ {
        Some("Veigar"@)
    } else if key == "vex"@ {
        Some("Vex"@)
    } else if key == "vi"@ {
        Some("Vi"@)
    } else if key == "viego"@ {
        Some("Viego"@)
    } else if key == "viktor"@ {
        Some("Viktor"@)
    } else if key == "vladimir"@ {
        Some("Vladimir"@)
    } else if key == "volibear"@ {
        Some("Volibear"@)
    } else if key == "warwick"@ {
        Some("Warwick"@)
    } else if key == "xayah"@ {
        Some("Xayah"@)
    } else if key == "xerath"@ {
        Some("Xerath"@)
    } else if key == "yasuo"@ {
        Some("Yasuo"@)
    } else if key == "yone"@ {
        Some("Yone"@)
    } else if key == "yorick"@ {
        Some("Yorick"@)
    } else if key == "yuumi"@ {
        Some("Yuumi"@)
    } else if key == "zac"@ {
        Some("Zac"@)
    } else if key == "zed"@ {
        Some("Zed"@)
    } else if key == "zeri"@ {
        Some("Zeri"@)
    } else if key == "ziggs"@ {
        Some("Ziggs"@)
    } else if key == "zilean"@ {
        Some("Zilean"@)
    } else if key == "zoe"@ {
        Some("Zoe"@)
    } else if key == "zyra"@ {
        Some("Zyra"@)
    } else {
        None
    }
}

/// Looks `key` up among the champions with irregular names.
pub fn find_special_champion(key: &str) -> (out: Option<ChampionData>)
    ensures
        match out {
            Some(data) => special_champion(key@) == Some(
                (data.display_name@, data.ddragon_key@),
            ),
            None => special_champion(key@) is None,
        },
{
    let k = chars_of(key);
    if is_name(&k, "aurelionsol") {
        Some(ChampionData { display_name: "Aurelion Sol", ddragon_key: "AurelionSol" })
    } else if is_name(&k, "drmundo") {
        Some(ChampionData { display_name: "Dr. Mundo", ddragon_key: "DrMundo" })
    } else if is_name(&k, "jarvaniv") {
        Some(ChampionData { display_name: "Jarvan IV", ddragon_key: "JarvanIV" })
    } else if is_name(&k, "leesin") {
        Some(ChampionData { display_name: "Lee Sin", ddragon_key: "LeeSin" })
    } else if is_name(&k, "masteryi") {
        Some(ChampionData { display_name: "Master Yi", ddragon_key: "MasterYi" })
    } else if is_name(&k, "missfortune") {
        Some(ChampionData { display_name: "Miss Fortune", ddragon_key: "MissFortune" })
    } else if is_name(&k, "tahmkench") {
        Some(ChampionData { display_name: "Tahm Kench", ddragon_key: "TahmKench" })
    } else if is_name(&k, "twistedfate") {
        Some(ChampionData { display_name: "Twisted Fate", ddragon_key: "TwistedFate" })
    } else if is_name(&k, "xinzhao") {
        Some(ChampionData { display_name: "Xin Zhao", ddragon_key: "XinZhao" })
    } else if is_name(&k, "renataglasc") {
        Some(ChampionData { display_name: "Renata Glasc", ddragon_key: "Renata" })
    } else if is_name(&k, "belveth") {
        Some(ChampionData { display_name: "Bel'Veth", ddragon_key: "Belveth" })
    } else if is_name(&k, "chogath") {
        Some(ChampionData { display_name: "Cho'Gath", ddragon_key: "Chogath" })
    } else if is_name(&k, "kaisa") {
        Some(ChampionData { display_name: "Kai'Sa", ddragon_key: "Kaisa" })
    } else if is_name(&k, "kassadin") {
        Some(ChampionData { display_name: "Kassadin", ddragon_key: "Kassadin" })
    } else if is_name(&k, "khazix") {
        Some(ChampionData { display_name: "Kha'Zix", ddragon_key: "Khazix" })
    } else if is_name(&k, "kogmaw") {
        Some(ChampionData { display_name: "Kog'Maw", ddragon_key: "KogMaw" })
    } else if is_name(&k, "ksante") {
        Some(ChampionData { display_name: "K'Sante", ddragon_key: "KSante" })
    } else if is_name(&k, "reksai") {
        Some(ChampionData { display_name: "Rek'Sai", ddragon_key: "RekSai" })
    } else if is_name(&k, "velkoz") {
        Some(ChampionData { display_name: "Vel'Koz", ddragon_key: "Velkoz" })
    } else if is_name(&k, "nunu") {
        Some(ChampionData { display_name: "Nunu & Willump", ddragon_key: "Nunu" })
    } else if is_name(&k, "nunuwillump") {
        Some(ChampionData { display_name: "Nunu & Willump", ddragon_key: "Nunu" })
    } else if is_name(&k, "wukong") {
        Some(ChampionData { display_name: "Wukong", ddragon_key: "MonkeyKing" })
    } else if is_name(&k, "monkeyking") {
        Some(ChampionData { display_name: "Wukong", ddragon_key: "MonkeyKing" })
    } else if is_name(&k, "fiddlesticks") {
        Some(ChampionData { display_name: "Fiddlesticks", ddragon_key: "Fiddlesticks" })
    } else if is_name(&k, "kayn") {
        Some(ChampionData { display_name: "Kayn", ddragon_key: "Kayn" })
    } else if is_name(&k, "renata") {
        Some(ChampionData { display_name: "Renata Glasc", ddragon_key: "Renata" })
    } else if is_name(&k, "blindmonk") {
        Some(ChampionData { display_name: "Lee Sin", ddragon_key: "LeeSin" })
    } else {
        None
    }
}

/// Looks `key` up among the champions with regular names.
pub fn find_simple_champion(key: &str) -> (out: Option<&'static str>)
    ensures
        match out {
            Some(ddragon_key) => simple_champion(key@) == Some(ddragon_key@),
            None => simple_champion(key@) is None,
        },
{
    let k = chars_of(key);
    if is_name(&k, "aatrox") {
        Some("Aatrox")
    } else if is_name(&k, "ahri") {
        Some("Ahri")
    } else if is_name(&k, "akali") {
        Some("Akali")
    } else if is_name(&k, "akshan") {
        Some("Akshan")
    } else if is_name(&k, "alistar") {
        Some("Alistar")
    } else if is_name(&k, "ambessa") {
        Some("Ambessa")
    } else if is_name(&k, "amumu") {
        Some("Amumu")
    } else if is_name(&k, "anivia") {
        Some("Anivia")
    } else if is_name(&k, "annie") {
        Some("Annie")
    } else if is_name(&k, "aphelios") {
        Some("Aphelios")
    } else if is_name(&k, "ashe") {
        Some("Ashe")
    } else if is_name(&k, "aurora") {
        Some("Aurora")
    } else if is_name(&k, "azir") {
        Some("Azir")
    } else if is_name(&k, "bard") {
        Some("Bard")
    } else if is_name(&k, "blitzcrank") {
        Some("Blitzcrank")
    } else if is_name(&k, "brand") {
        Some("Brand")
    } else if is_name(&k, "braum") {
        Some("Braum")
    } else if is_name(&k, "briar") {
        Some("Briar")
    } else if is_name(&k, "caitlyn") {
        Some("Caitlyn")
    } else if is_name(&k, "camille") {
        Some("Camille")
    } else if is_name(&k, "cassiopeia") {
        Some("Cassiopeia")
    } else if is_name(&k, "corki") {
        Some("Corki")
    } else if is_name(&k, "darius") {
        Some("Darius")
    } else if is_name(&k, "diana") {
        Some("Diana")
    } else if is_name(&k, "draven") {
        Some("Draven")
    } else if is_name(&k, "ekko") {
        Some("Ekko")
    } else if is_name(&k, "elise") {
        Some("Elise")
    } else if is_name(&k, "evelynn") {
        Some("Evelynn")
    } else if is_name(&k, "ezreal") {
        Some("Ezreal")
    } else if is_name(&k, "fiora") {
        Some("Fiora")
    } else if is_name(&k, "fizz") {
        Some("Fizz")
    } else if is_name(&k, "galio") {
        Some("Galio")
    } else if is_name(&k, "gangplank") {
        Some("Gangplank")
    } else if is_name(&k, "garen") {
        Some("Garen")
    } else if is_name(&k, "gnar") {
        Some("Gnar")
    } else if is_name(&k, "gragas") {
        Some("Gragas")
    } else if is_name(&k, "graves") {
        Some("Graves")
    } else if is_name(&k, "gwen") {
        Some("Gwen")
    } else if is_name(&k, "hecarim") {
        Some("Hecarim")
    } else if is_name(&k, "heimerdinger") {
        Some("Heimerdinger")
    } else if is_name(&k, "hwei") {
        Some("Hwei")
    } else if is_name(&k, "illaoi") {
        Some("Illaoi")
    } else if is_name(&k, "irelia") {
        Some("Irelia")
    } else if is_name(&k, "ivern") {
        Some("Ivern")
    } else if is_name(&k, "janna") {
        Some("Janna")
    } else if is_name(&k, "jax") {
        Some("Jax")
    } else if is_name(&k, "jayce") {
        Some("Jayce")
    } else if is_name(&k, "jhin") {
        Some("Jhin")
    } else if is_name(&k, "jinx") {
        Some("Jinx")
    } else if is_name(&k, "kalista") {
        Some("Kalista")
    } else if is_name(&k, "karma") {
        Some("Karma")
    } else if is_name(&k, "karthus") {
        Some("Karthus")
    } else if is_name(&k, "katarina") {
        Some("Katarina")
    } else if is_name(&k, "kayle") {
        Some("Kayle")
    } else if is_name(&k, "kennen") {
        Some("Kennen")
    } else if is_name(&k, "kindred") {
        Some("Kindred")
    } else if is_name(&k, "kled") {
        Some("Kled")
    } else if is_name(&k, "leblanc") {
        Some("Leblanc")
    } else if is_name(&k, "leona") {
        Some("Leona")
    } else if is_name(&k, "lillia") {
        Some("Lillia")
    } else if is_name(&k, "lissandra") {
        Some("Lissandra")
    } else if is_name(&k, "lucian") {
        Some("Lucian")
    } else if is_name(&k, "lulu") {
        Some("Lulu")
    } else if is_name(&k, "lux") {
        Some("Lux")
    } else if is_name(&k, "malphite") {
        Some("Malphite")
    } else if is_name(&k, "malzahar") {
        Some("Malzahar")
    } else if is_name(&k, "maokai") {
        Some("Maokai")
    } else if is_name(&k, "milio") {
        Some("Milio")
    } else if is_name(&k, "mordekaiser") {
        Some("Mordekaiser")
    } else if is_name(&k, "morgana") {
        Some("Morgana")
    } else if is_name(&k, "naafiri") {
        Some("Naafiri")
    } else if is_name(&k, "nami") {
        Some("Nami")
    } else if is_name(&k, "nasus") {
        Some("Nasus")
    } else if is_name(&k, "nautilus") {
        Some("Nautilus")
    } else if is_name(&k, "neeko") {
        Some("Neeko")
    } else if is_name(&k, "nidalee") {
        Some("Nidalee")
    } else if is_name(&k, "nilah") {
        Some("Nilah")
    } else if is_name(&k, "nocturne") {
        Some("Nocturne")
    } else if is_name(&k, "olaf") {
        Some("Olaf")
    } else if is_name(&k, "orianna") {
        Some("Orianna")
    } else if is_name(&k, "ornn") {
        Some("Ornn")
    } else if is_name(&k, "pantheon") {
        Some("Pantheon")
    } else if is_name(&k, "poppy") {
        Some("Poppy")
    } else if is_name(&k, "pyke") {
        Some("Pyke")
    } else if is_name(&k, "qiyana") {
        Some("Qiyana")
    } else if is_name(&k, "quinn") {
        Some("Quinn")
    } else if is_name(&k, "rakan") {
        Some("Rakan")
    } else if is_name(&k, "rammus") {
        Some("Rammus")
    } else if is_name(&k, "rell") {
        Some("Rell")
    } else if is_name(&k, "renekton") {
        Some("Renekton")
    } else if is_name(&k, "rengar") {
        Some("Rengar")
    } else if is_name(&k, "riven") {
        Some("Riven")
    } else if is_name(&k, "rumble") {
        Some("Rumble")
    } else if is_name(&k, "ryze") {
        Some("Ryze")
    } else if is_name(&k, "samira") {
        Some("Samira")
    } else if is_name(&k, "sejuani") {
        Some("Sejuani")
    } else if is_name(&k, "senna") {
        Some("Senna")
    } else if is_name(&k, "seraphine") {
        Some("Seraphine")
    } else if is_name(&k, "sett") {
        Some("Sett")
    } else if is_name(&k, "shaco") {
        Some("Shaco")
    } else if is_name(&k, "shen") {
        Some("Shen")
    } else if is_name(&k, "shyvana") {
        Some("Shyvana")
    } else if is_name(&k, "singed") {
        Some("Singed")
    } else if is_name(&k, "sion") {
        Some("Sion")
    } else if is_name(&k, "sivir") {
        Some("Sivir")
    } else if is_name(&k, "skarner") {
        Some("Skarner")
    } else if is_name(&k, "smolder") {
        Some("Smolder")
    } else if is_name(&k, "sona") {
        Some("Sona")
    } else if is_name(&k, "soraka") {
        Some("Soraka")
    } else if is_name(&k, "swain") {
        Some("Swain")
    } else if is_name(&k, "sylas") {
        Some("Sylas")
    } else if is_name(&k, "syndra") {
        Some("Syndra")
    } else if is_name(&k, "taliyah") {
        Some("Taliyah")
    } else if is_name(&k, "talon") {
        Some("Talon")
    } else if is_name(&k, "taric") {
        Some("Taric")
    } else if is_name(&k, "teemo") {
        Some("Teemo")
    } else if is_name(&k, "thresh") {
        Some("Thresh")
    } else if is_name(&k, "tristana") {
        Some("Tristana")
    } else if is_name(&k, "trundle") {
        Some("Trundle")
    } else if is_name(&k, "tryndamere") {
        Some("Tryndamere")
    } else if is_name(&k, "udyr") {
        Some("Udyr")
    } else if is_name(&k, "urgot") {
        Some("Urgot")
    } else if is_name(&k, "varus") {
        Some("Varus")
    } else if is_name(&k, "vayne") {
        Some("Vayne")
    } else if is_name(&k, "veigar") {
        Some("Veigar")
    } else if is_name(&k, "vex") {
        Some("Vex")
    } else if is_name(&k, "vi") {
        Some("Vi")
    } else if is_name(&k, "viego") {
        Some("Viego")
    } else if is_name(&k, "viktor") {
        Some("Viktor")
    } else if is_name(&k, "vladimir") {
        Some("Vladimir")
    } else if is_name(&k, "volibear") {
        Some("Volibear")
    } else if is_name(&k, "warwick") {
        Some("Warwick")
    } else if is_name(&k, "xayah") {
        Some("Xayah")
    } else if is_name(&k, "xerath") {
        Some("Xerath")
    } else if is_name(&k, "yasuo") {
        Some("Yasuo")
    } else if is_name(&k, "yone") {
        Some("Yone")
    } else if is_name(&k, "yorick") {
        Some("Yorick")
    } else if is_name(&k, "yuumi") {
        Some("Yuumi")
    } else if is_name(&k, "zac") {
        Some("Zac")
    } else if is_name(&k, "zed") {
        Some("Zed")
    } else if is_name(&k, "zeri") {
        Some("Zeri")
    } else if is_name(&k, "ziggs") {
        Some("Ziggs")
    } else if is_name(&k, "zilean") {
        Some("Zilean")
    } else if is_name(&k, "zoe") {
        Some("Zoe")
    } else if is_name(&k, "zyra") {
        Some("Zyra")
    } else {
        None
    }
}

fn is_name(key: &Vec<char>, name: &str) -> (same: bool)
    ensures
        same == (key@ == name@),
{
    let n = chars_of(name);
    chars_eq(key, &n)
}

/// The address of the icon that is filed under `ddragon_key`.
pub open spec fn icon_url(ddragon_key: Seq<char>) -> Seq<char> {
    DDRAGON_BASE@ + "/"@ + DDRAGON_VERSION@ + "/img/champion/"@ + ddragon_key + ".png"@
}

/// `s` with its first character in upper case. The upper case of a character
/// may be more than one character.
pub open spec fn capitalized(s: Seq<char>) -> Seq<char> {
    if s.len() == 0 {
        Seq::<char>::empty()
    } else {
        char_to_uppercase(s.first()) + s.drop_first()
    }
}

/// `s` with a space put before every upper-case letter that directly follows
/// a lower-case letter.
pub open spec fn spaced(s: Seq<char>) -> Seq<char>
    decreases s.len(),
{
    if s.len() == 0 {
        Seq::<char>::empty()
    } else if s.len() >= 2 && char_is_uppercase(s.last()) && char_is_lowercase(s[s.len() - 2]) {
        spaced(s.drop_last()).push(' ').push(s.last())
    } else {
        spaced(s.drop_last()).push(s.last())
    }
}

/// A name as a reader expects it: words set apart, first letter capital.
pub open spec fn humanized(s: Seq<char>) -> Seq<char> {
    capitalized(spaced(s))
}

/// The shown name and the icon address for a champion. `key` is the API name
/// in lower case and trimmed; `api_name` is the name as it was given.
pub open spec fn normalized(key: Seq<char>, api_name: Seq<char>) -> (Seq<char>, Seq<char>) {
    match special_champion(key) {
        Some((display_name, ddragon_key)) => (display_name, icon_url(ddragon_key)),
        None => match simple_champion(key) {
            Some(ddragon_key) => (capitalized(ddragon_key), icon_url(ddragon_key)),
            None => (humanized(api_name), icon_url(capitalized(api_name))),
        },
    }
}

/// The icon key for a champion. `key` is the API name in lower case;
/// `api_name` is the name as it was given.
pub open spec fn ddragon_key_of(key: Seq<char>, api_name: Seq<char>) -> Seq<char> {
    match special_champion(key) {
        Some((_, ddragon_key)) => ddragon_key,
        None => match simple_champion(key) {
            Some(ddragon_key) => ddragon_key,
            None => capitalized(api_name),
        },
    }
}

/// Puts the first character of `s` in upper case.
pub fn capitalize_first(s: &str) -> (out: String)
    ensures
        out@ == capitalized(s@),
{
    let chars = chars_of(s);
    if chars.len() == 0 {
        return String::new();
    }
    let mut out = uppercase_of(chars[0]);
    let rest = string_of_range(&chars, 1, chars.len());
    out.append(rest.as_str());
    out
}

/// Sets the words of a run-together name apart and capitalizes it.
pub fn humanize_name(s: &str) -> (out: String)
    ensures
        out@ == humanized(s@),
{
    let chars = chars_of(s);
    let mut result = String::new();
    let mut prev_lower = false;
    let mut i: usize = 0;
    assert(chars@.subrange(0, 0) =~= Seq::<char>::empty());
    while i < chars.len()
        invariant
            i <= chars.len(),
            result@ == spaced(chars@.subrange(0, i as int)),
            prev_lower == (i > 0 && char_is_lowercase(chars@[i - 1])),
        decreases chars.len() - i,
    {
        let c: char = chars[i];
        proof {
            let next = chars@.subrange(0, i + 1);
            assert(next.drop_last() =~= chars@.subrange(0, i as int));
            assert(next.last() == c);
            if i > 0 {
                assert(next[next.len() - 2] == chars@[i - 1]);
            }
        }
        if c.is_uppercase() && prev_lower {
            result.push(' ');
        }
        result.push(c);
        prev_lower = c.is_lowercase();
        i += 1;
    }
    assert(chars@.subrange(0, chars.len() as int) =~= chars@);
    capitalize_first(result.as_str())
}

/// The address of the icon that is filed under `ddragon_key`.
pub fn get_champion_icon_url(ddragon_key: &str) -> (out: String)
    ensures
        out@ == icon_url(ddragon_key@),
{
    let mut out = String::from_str(DDRAGON_BASE);
    out.append("/");
    out.append(DDRAGON_VERSION);
    out.append("/img/champion/");
    out.append(ddragon_key);
    out.append(".png");
    out
}

/// The shown name and the icon address for the champion that goes by `key`
/// once its API name `api_name` is in lower case and trimmed.
pub fn normalize_with_key(key: &str, api_name: &str) -> (out: (String, String))
    ensures
        (out.0@, out.1@) == normalized(key@, api_name@),
{
    match find_special_champion(key) {
        Some(data) => (String::from_str(data.display_name), get_champion_icon_url(data.ddragon_key)),
        None => match find_simple_champion(key) {
            Some(ddragon_key) => (capitalize_first(ddragon_key), get_champion_icon_url(ddragon_key)),
            None => {
                let display_name = humanize_name(api_name);
                let fallback_key = capitalize_first(api_name);
                (display_name, get_champion_icon_url(fallback_key.as_str()))
            },
        },
    }
}

/// The shown name and the icon address for the champion that an API calls
/// `api_name`. The name is looked up in lower case and trimmed; a name that is
/// not known is humanized. There is always an answer.
pub fn normalize_champion(api_name: &str) -> (out: Option<(String, String)>)
    ensures
        out matches Some(pair) && (pair.0@, pair.1@) == normalized(
            trimmed(str_to_lowercase(api_name@)),
            api_name@,
        ),
{
    let lower = api_name.to_lowercase();
    let key = trim(lower.as_str());
    Some(normalize_with_key(key.as_str(), api_name))
}

/// The icon key for the champion that goes by `key` once its API name
/// `api_name` is in lower case.
pub fn ddragon_key_with_key(key: &str, api_name: &str) -> (out: String)
    ensures
        out@ == ddragon_key_of(key@, api_name@),
{
    match find_special_champion(key) {
        Some(data) => String::from_str(data.ddragon_key),
        None => match find_simple_champion(key) {
            Some(ddragon_key) => String::from_str(ddragon_key),
            None => capitalize_first(api_name),
        },
    }
}

/// The icon key for the champion that an API calls `api_name`. The name is
/// looked up in lower case, untrimmed; a name that is not known is
/// capitalized. There is always an answer.
pub fn get_ddragon_key(api_name: &str) -> (out: Option<String>)
    ensures
        out matches Some(k) && k@ == ddragon_key_of(str_to_lowercase(api_name@), api_name@),
{
    let key = api_name.to_lowercase();
    Some(ddragon_key_with_key(key.as_str(), api_name))
}

} // verus!
