//! Weather forecasts: the feed addresses and the nested records that a
//! forecast document decodes to.

use vstd::prelude::*;
use crate::text::{lowercase_of, str_eq, to_lowercase, Text};
use crate::BMKG_BASE_URL;

pub mod builder;
pub mod laws;

verus! {

/// The forecast feeds, one for each province and one for the whole country.
#[derive(Debug, Clone, Copy, PartialEq, Eq, Structural)]
pub enum Url {
    Aceh,
    Bali,
    BangkaBelitung,
    Banten,
    Bengkulu,
    /// Daerah Istimewa Yogyakarta.
    DIY,
    /// DKI Jakarta.
    DKI,
    Gorontalo,
    Jambi,
    JawaBarat,
    JawaTengah,
    JawaTimur,
    /// Kalimantan Barat.
    Kalbar,
    /// Kalimantan Selatan.
    Kalsel,
    /// Kalimantan Tengah.
    Kalteng,
    /// Kalimantan Timur.
    Kaltim,
    /// Kalimantan Utara.
    Kaltara,
    KepulauanRiau,
    Lampung,
    Maluku,
    MalukuUtara,
    /// Nusa Tenggara Barat.
    NTB,
    /// Nusa Tenggara Timur.
    NTT,
    Papua,
    PapuaBarat,
    Riau,
    SulawesiBarat,
    SulawesiSelatan,
    SulawesiTengah,
    SulawesiTenggara,
    SulawesiUtara,
    SumateraBarat,
    SumateraSelatan,
    SumateraUtara,
    /// The whole country.
    Indonesia,
}

impl Url {
    /// The region's name as the feed's file spells it.
    pub open spec fn stem(self) -> Seq<char> {
        match self {
            Url::Aceh => "Aceh"@,
            Url::Bali => "Bali"@,
            Url::BangkaBelitung => "BangkaBelitung"@,
            Url::Banten => "Banten"@,
            Url::Bengkulu => "Bengkulu"@,
            Url::DIY => "DIYogyakarta"@,
            Url::DKI => "DKIJakarta"@,
            Url::Gorontalo => "Gorontalo"@,
            Url::Jambi => "Jambi"@,
            Url::JawaBarat => "JawaBarat"@,
            Url::JawaTengah => "JawaTengah"@,
            Url::JawaTimur => "JawaTimur"@,
            Url::Kalbar => "KalimantanBarat"@,
            Url::Kalsel => "KalimantanSelatan"@,
            Url::Kalteng => "KalimantanTengah"@,
            Url::Kaltim => "KalimantanTimur"@,
            Url::Kaltara => "KalimantanUtara"@,
            Url::KepulauanRiau => "KepulauanRiau"@,
            Url::Lampung => "Lampung"@,
            Url::Maluku => "Maluku"@,
            Url::MalukuUtara => "MalukuUtara"@,
            Url::NTB => "NusaTenggaraBarat"@,
            Url::NTT => "NusaTenggaraTimur"@,
            Url::Papua => "Papua"@,
            Url::PapuaBarat => "PapuaBarat"@,
            Url::Riau => "Riau"@,
            Url::SulawesiBarat => "SulawesiBarat"@,
            Url::SulawesiSelatan => "SulawesiSelatan"@,
            Url::SulawesiTengah => "SulawesiTengah"@,
            Url::SulawesiTenggara => "SulawesiTenggara"@,
            Url::SulawesiUtara => "SulawesiUtara"@,
            Url::SumateraBarat => "SumateraBarat"@,
            Url::SumateraSelatan => "SumateraSelatan"@,
            Url::SumateraUtara => "SumateraUtara"@,
            Url::Indonesia => "Indonesia"@,
        }
    }

    /// The feed's full address: the host, the directory of the digital
    /// forecasts, the region's file stem and the extension.
    pub open spec fn address(self) -> Seq<char> {
        BMKG_BASE_URL@ + "/DataMKG/MEWS/DigitalForecast/DigitalForecast-"@ + self.stem() + ".xml"@
    }

    /// The feed that a lowercase name selects, if any. The names are short
    /// forms, not the variants' own; `sumatera_barat` selects the feed of
    /// Sumatera Utara.
    pub open spec fn named(name: Seq<char>) -> Option<Url> {
        if name == "aceh"@ {
            Some(Url::Aceh)
        } else if name == "bali"@ {
            Some(Url::Bali)
        } else if name == "bangka_belitung"@ {
            Some(Url::BangkaBelitung)
        } else if name == "banten"@ {
            Some(Url::Banten)
        } else if name == "bengkulu"@ {
            Some(Url::Bengkulu)
        } else if name == "dyi"@ {
            Some(Url::DIY)
        } else if name == "dki"@ {
            Some(Url::DKI)
        } else if name == "gorontalo"@ {
            Some(Url::Gorontalo)
        } else if name == "jambi"@ {
            Some(Url::Jambi)
        } else if name == "jabar"@ {
            Some(Url::JawaBarat)
        } else if name == "jateng"@ {
            Some(Url::JawaTengah)
        } else if name == "jatim"@ {
            Some(Url::JawaTimur)
        } else if name == "kalbar"@ {
            Some(Url::Kalbar)
        } else if name == "kalsel"@ {
            Some(Url::Kalsel)
        } else if name == "kalteng"@ {
            Some(Url::Kalteng)
        } else if name == "kaltim"@ {
            Some(Url::Kaltim)
        } else if name == "kaltara"@ {
            Some(Url::Kaltara)
        } else if name == "kepri"@ {
            Some(Url::KepulauanRiau)
        } else if name == "lampung"@ {
            Some(Url::Lampung)
        } else if name == "maluku_utara"@ {
            Some(Url::MalukuUtara)
        } else if name == "maluku"@ {
            Some(Url::Maluku)
        } else if name == "ntb"@ {
            Some(Url::NTB)
        } else if name == "ntt"@ {
            Some(Url::NTT)
        } else if name == "papua"@ {
            Some(Url::Papua)
        } else if name == "papua_barat"@ {
            Some(Url::PapuaBarat)
        } else if name == "riau"@ {
            Some(Url::Riau)
        } else if name == "sulawesi_barat"@ {
            Some(Url::SulawesiBarat)
        } else if name == "sulawesi_selatan"@ {
            Some(Url::SulawesiSelatan)
        } else if name == "sulawesi_tengah"@ {
            Some(Url::SulawesiTengah)
        } else if name == "sulawesi_tenggara"@ {
            Some(Url::SulawesiTenggara)
        } else if name == "sulawesi_utara"@ {
            Some(Url::SulawesiUtara)
        } else if name == "sumatera_barat"@ {
            Some(Url::SumateraUtara)
        } else if name == "sumatera_selatan"@ {
            Some(Url::SumateraSelatan)
        } else if name == "sumatera_utara"@ {
            Some(Url::SumateraUtara)
        } else if name == "indonesia"@ {
            Some(Url::Indonesia)
        } else {
            None
        }
    }

    /// The feed's full address.
    pub fn to_str(&self) -> (url: &'static str)
        ensures
            url@ == self.address(),
    {
        proof {
            reveal_strlit("https://data.bmkg.go.id");
            reveal_strlit("/DataMKG/MEWS/DigitalForecast/DigitalForecast-");
            reveal_strlit(".xml");
        }
        match self {
            Url::Aceh => {
                proof {
                    reveal_strlit("Aceh");
                    reveal_strlit("https://data.bmkg.go.id/DataMKG/MEWS/DigitalForecast/DigitalForecast-Aceh.xml");
                    assert("https://data.bmkg.go.id/DataMKG/MEWS/DigitalForecast/DigitalForecast-Aceh.xml"@ =~= self.address());
                }
                "https://data.bmkg.go.id/DataMKG/MEWS/DigitalForecast/DigitalForecast-Aceh.xml"
            },
            Url::Bali => {
                proof {
                    reveal_strlit("Bali");
                    reveal_strlit("https://data.bmkg.go.id/DataMKG/MEWS/DigitalForecast/DigitalForecast-Bali.xml");
                    assert("https://data.bmkg.go.id/DataMKG/MEWS/DigitalForecast/DigitalForecast-Bali.xml"@ =~= self.address());
                }
                "https://data.bmkg.go.id/DataMKG/MEWS/DigitalForecast/DigitalForecast-Bali.xml"
            },
            Url::BangkaBelitung => {
                proof {
                    reveal_strlit("BangkaBelitung");
                    reveal_strlit("https://data.bmkg.go.id/DataMKG/MEWS/DigitalForecast/DigitalForecast-BangkaBelitung.xml");
                    assert("https://data.bmkg.go.id/DataMKG/MEWS/DigitalForecast/DigitalForecast-BangkaBelitung.xml"@ =~= self.address());
                }
                "https://data.bmkg.go.id/DataMKG/MEWS/DigitalForecast/DigitalForecast-BangkaBelitung.xml"
            },
            Url::Banten => {
                proof {
                    reveal_strlit("Banten");
                    reveal_strlit("https://data.bmkg.go.id/DataMKG/MEWS/DigitalForecast/DigitalForecast-Banten.xml");
                    assert("https://data.bmkg.go.id/DataMKG/MEWS/DigitalForecast/DigitalForecast-Banten.xml"@ =~= self.address());
                }
                "https://data.bmkg.go.id/DataMKG/MEWS/DigitalForecast/DigitalForecast-Banten.xml"
            },
            Url::Bengkulu => {
                proof {
                    reveal_strlit("Bengkulu");
                    reveal_strlit("https://data.bmkg.go.id/DataMKG/MEWS/DigitalForecast/DigitalForecast-Bengkulu.xml");
                    assert("https://data.bmkg.go.id/DataMKG/MEWS/DigitalForecast/DigitalForecast-Bengkulu.xml"@ =~= self.address());
                }
                "https://data.bmkg.go.id/DataMKG/MEWS/DigitalForecast/DigitalForecast-Bengkulu.xml"
            },
            Url::DIY => {
                proof {
                    reveal_strlit("DIYogyakarta");
                    reveal_strlit("https://data.bmkg.go.id/DataMKG/MEWS/DigitalForecast/DigitalForecast-DIYogyakarta.xml");
                    assert("https://data.bmkg.go.id/DataMKG/MEWS/DigitalForecast/DigitalForecast-DIYogyakarta.xml"@ =~= self.address());
                }
                "https://data.bmkg.go.id/DataMKG/MEWS/DigitalForecast/DigitalForecast-DIYogyakarta.xml"
            },
            Url::DKI => {
                proof {
                    reveal_strlit("DKIJakarta");
                    reveal_strlit("https://data.bmkg.go.id/DataMKG/MEWS/DigitalForecast/DigitalForecast-DKIJakarta.xml");
                    assert("https://data.bmkg.go.id/DataMKG/MEWS/DigitalForecast/DigitalForecast-DKIJakarta.xml"@ =~= self.address());
                }
                "https://data.bmkg.go.id/DataMKG/MEWS/DigitalForecast/DigitalForecast-DKIJakarta.xml"
            },
            Url::Gorontalo => {
                proof {
                    reveal_strlit("Gorontalo");
                    reveal_strlit("https://data.bmkg.go.id/DataMKG/MEWS/DigitalForecast/DigitalForecast-Gorontalo.xml");
                    assert("https://data.bmkg.go.id/DataMKG/MEWS/DigitalForecast/DigitalForecast-Gorontalo.xml"@ =~= self.address());
                }
                "https://data.bmkg.go.id/DataMKG/MEWS/DigitalForecast/DigitalForecast-Gorontalo.xml"
            },
            Url::Jambi => {
                proof {
                    reveal_strlit("Jambi");
                    reveal_strlit("https://data.bmkg.go.id/DataMKG/MEWS/DigitalForecast/DigitalForecast-Jambi.xml");
                    assert("https://data.bmkg.go.id/DataMKG/MEWS/DigitalForecast/DigitalForecast-Jambi.xml"@ =~= self.address());
                }
                "https://data.bmkg.go.id/DataMKG/MEWS/DigitalForecast/DigitalForecast-Jambi.xml"
            },
            Url::JawaBarat => {
                proof {
                    reveal_strlit("JawaBarat");
                    reveal_strlit("https://data.bmkg.go.id/DataMKG/MEWS/DigitalForecast/DigitalForecast-JawaBarat.xml");
                    assert("https://data.bmkg.go.id/DataMKG/MEWS/DigitalForecast/DigitalForecast-JawaBarat.xml"@ =~= self.address());
                }
                "https://data.bmkg.go.id/DataMKG/MEWS/DigitalForecast/DigitalForecast-JawaBarat.xml"
            },
            Url::JawaTengah => {
                proof {
                    reveal_strlit("JawaTengah");
                    reveal_strlit("https://data.bmkg.go.id/DataMKG/MEWS/DigitalForecast/DigitalForecast-JawaTengah.xml");
                    assert("https://data.bmkg.go.id/DataMKG/MEWS/DigitalForecast/DigitalForecast-JawaTengah.xml"@ =~= self.address());
                }
                "https://data.bmkg.go.id/DataMKG/MEWS/DigitalForecast/DigitalForecast-JawaTengah.xml"
            },
            Url::JawaTimur => {
                proof {
                    reveal_strlit("JawaTimur");
                    reveal_strlit("https://data.bmkg.go.id/DataMKG/MEWS/DigitalForecast/DigitalForecast-JawaTimur.xml");
                    assert("https://data.bmkg.go.id/DataMKG/MEWS/DigitalForecast/DigitalForecast-JawaTimur.xml"@ =~= self.address());
                }
                "https://data.bmkg.go.id/DataMKG/MEWS/DigitalForecast/DigitalForecast-JawaTimur.xml"
            },
            Url::Kalbar => {
                proof {
                    reveal_strlit("KalimantanBarat");
                    reveal_strlit("https://data.bmkg.go.id/DataMKG/MEWS/DigitalForecast/DigitalForecast-KalimantanBarat.xml");
                    assert("https://data.bmkg.go.id/DataMKG/MEWS/DigitalForecast/DigitalForecast-KalimantanBarat.xml"@ =~= self.address());
                }
                "https://data.bmkg.go.id/DataMKG/MEWS/DigitalForecast/DigitalForecast-KalimantanBarat.xml"
            },
            Url::Kalsel => {
                proof {
                    reveal_strlit("KalimantanSelatan");
                    reveal_strlit("https://data.bmkg.go.id/DataMKG/MEWS/DigitalForecast/DigitalForecast-KalimantanSelatan.xml");
                    assert("https://data.bmkg.go.id/DataMKG/MEWS/DigitalForecast/DigitalForecast-KalimantanSelatan.xml"@ =~= self.address());
                }
                "https://data.bmkg.go.id/DataMKG/MEWS/DigitalForecast/DigitalForecast-KalimantanSelatan.xml"
            },
            Url::Kalteng => {
                proof {
                    reveal_strlit("KalimantanTengah");
                    reveal_strlit("https://data.bmkg.go.id/DataMKG/MEWS/DigitalForecast/DigitalForecast-KalimantanTengah.xml");
                    assert("https://data.bmkg.go.id/DataMKG/MEWS/DigitalForecast/DigitalForecast-KalimantanTengah.xml"@ =~= self.address());
                }
                "https://data.bmkg.go.id/DataMKG/MEWS/DigitalForecast/DigitalForecast-KalimantanTengah.xml"
            },
            Url::Kaltim => {
                proof {
                    reveal_strlit("KalimantanTimur");
                    reveal_strlit("https://data.bmkg.go.id/DataMKG/MEWS/DigitalForecast/DigitalForecast-KalimantanTimur.xml");
                    assert("https://data.bmkg.go.id/DataMKG/MEWS/DigitalForecast/DigitalForecast-KalimantanTimur.xml"@ =~= self.address());
                }
                "https://data.bmkg.go.id/DataMKG/MEWS/DigitalForecast/DigitalForecast-KalimantanTimur.xml"
            },
            Url::Kaltara => {
                proof {
                    reveal_strlit("KalimantanUtara");
                    reveal_strlit("https://data.bmkg.go.id/DataMKG/MEWS/DigitalForecast/DigitalForecast-KalimantanUtara.xml");
                    assert("https://data.bmkg.go.id/DataMKG/MEWS/DigitalForecast/DigitalForecast-KalimantanUtara.xml"@ =~= self.address());
                }
                "https://data.bmkg.go.id/DataMKG/MEWS/DigitalForecast/DigitalForecast-KalimantanUtara.xml"
            },
            Url::KepulauanRiau => {
                proof {
                    reveal_strlit("KepulauanRiau");
                    reveal_strlit("https://data.bmkg.go.id/DataMKG/MEWS/DigitalForecast/DigitalForecast-KepulauanRiau.xml");
                    assert("https://data.bmkg.go.id/DataMKG/MEWS/DigitalForecast/DigitalForecast-KepulauanRiau.xml"@ =~= self.address());
                }
                "https://data.bmkg.go.id/DataMKG/MEWS/DigitalForecast/DigitalForecast-KepulauanRiau.xml"
            },
            Url::Lampung => {
                proof {
                    reveal_strlit("Lampung");
                    reveal_strlit("https://data.bmkg.go.id/DataMKG/MEWS/DigitalForecast/DigitalForecast-Lampung.xml");
                    assert("https://data.bmkg.go.id/DataMKG/MEWS/DigitalForecast/DigitalForecast-Lampung.xml"@ =~= self.address());
                }
                "https://data.bmkg.go.id/DataMKG/MEWS/DigitalForecast/DigitalForecast-Lampung.xml"
            },
            Url::Maluku => {
                proof {
                    reveal_strlit("Maluku");
                    reveal_strlit("https://data.bmkg.go.id/DataMKG/MEWS/DigitalForecast/DigitalForecast-Maluku.xml");
                    assert("https://data.bmkg.go.id/DataMKG/MEWS/DigitalForecast/DigitalForecast-Maluku.xml"@ =~= self.address());
                }
                "https://data.bmkg.go.id/DataMKG/MEWS/DigitalForecast/DigitalForecast-Maluku.xml"
            },
            Url::MalukuUtara => {
                proof {
                    reveal_strlit("MalukuUtara");
                    reveal_strlit("https://data.bmkg.go.id/DataMKG/MEWS/DigitalForecast/DigitalForecast-MalukuUtara.xml");
                    assert("https://data.bmkg.go.id/DataMKG/MEWS/DigitalForecast/DigitalForecast-MalukuUtara.xml"@ =~= self.address());
                }
                "https://data.bmkg.go.id/DataMKG/MEWS/DigitalForecast/DigitalForecast-MalukuUtara.xml"
            },
            Url::NTB => {
                proof {
                    reveal_strlit("NusaTenggaraBarat");
                    reveal_strlit("https://data.bmkg.go.id/DataMKG/MEWS/DigitalForecast/DigitalForecast-NusaTenggaraBarat.xml");
                    assert("https://data.bmkg.go.id/DataMKG/MEWS/DigitalForecast/DigitalForecast-NusaTenggaraBarat.xml"@ =~= self.address());
                }
                "https://data.bmkg.go.id/DataMKG/MEWS/DigitalForecast/DigitalForecast-NusaTenggaraBarat.xml"
            },
            Url::NTT => {
                proof {
                    reveal_strlit("NusaTenggaraTimur");
                    reveal_strlit("https://data.bmkg.go.id/DataMKG/MEWS/DigitalForecast/DigitalForecast-NusaTenggaraTimur.xml");
                    assert("https://data.bmkg.go.id/DataMKG/MEWS/DigitalForecast/DigitalForecast-NusaTenggaraTimur.xml"@ =~= self.address());
                }
                "https://data.bmkg.go.id/DataMKG/MEWS/DigitalForecast/DigitalForecast-NusaTenggaraTimur.xml"
            },
            Url::Papua => {
                proof {
                    reveal_strlit("Papua");
                    reveal_strlit("https://data.bmkg.go.id/DataMKG/MEWS/DigitalForecast/DigitalForecast-Papua.xml");
                    assert("https://data.bmkg.go.id/DataMKG/MEWS/DigitalForecast/DigitalForecast-Papua.xml"@ =~= self.address());
                }
                "https://data.bmkg.go.id/DataMKG/MEWS/DigitalForecast/DigitalForecast-Papua.xml"
            },
            Url::PapuaBarat => {
                proof {
                    reveal_strlit("PapuaBarat");
                    reveal_strlit("https://data.bmkg.go.id/DataMKG/MEWS/DigitalForecast/DigitalForecast-PapuaBarat.xml");
                    assert("https://data.bmkg.go.id/DataMKG/MEWS/DigitalForecast/DigitalForecast-PapuaBarat.xml"@ =~= self.address());
                }
                "https://data.bmkg.go.id/DataMKG/MEWS/DigitalForecast/DigitalForecast-PapuaBarat.xml"
            },
            Url::Riau => {
                proof {
                    reveal_strlit("Riau");
                    reveal_strlit("https://data.bmkg.go.id/DataMKG/MEWS/DigitalForecast/DigitalForecast-Riau.xml");
                    assert("https://data.bmkg.go.id/DataMKG/MEWS/DigitalForecast/DigitalForecast-Riau.xml"@ =~= self.address());
                }
                "https://data.bmkg.go.id/DataMKG/MEWS/DigitalForecast/DigitalForecast-Riau.xml"
            },
            Url::SulawesiBarat => {
                proof {
                    reveal_strlit("SulawesiBarat");
                    reveal_strlit("https://data.bmkg.go.id/DataMKG/MEWS/DigitalForecast/DigitalForecast-SulawesiBarat.xml");
                    assert("https://data.bmkg.go.id/DataMKG/MEWS/DigitalForecast/DigitalForecast-SulawesiBarat.xml"@ =~= self.address());
                }
                "https://data.bmkg.go.id/DataMKG/MEWS/DigitalForecast/DigitalForecast-SulawesiBarat.xml"
            },
            Url::SulawesiSelatan => {
                proof {
                    reveal_strlit("SulawesiSelatan");
                    reveal_strlit("https://data.bmkg.go.id/DataMKG/MEWS/DigitalForecast/DigitalForecast-SulawesiSelatan.xml");
                    assert("https://data.bmkg.go.id/DataMKG/MEWS/DigitalForecast/DigitalForecast-SulawesiSelatan.xml"@ =~= self.address());
                }
                "https://data.bmkg.go.id/DataMKG/MEWS/DigitalForecast/DigitalForecast-SulawesiSelatan.xml"
            },
            Url::SulawesiTengah => {
                proof {
                    reveal_strlit("SulawesiTengah");
                    reveal_strlit("https://data.bmkg.go.id/DataMKG/MEWS/DigitalForecast/DigitalForecast-SulawesiTengah.xml");
                    assert("https://data.bmkg.go.id/DataMKG/MEWS/DigitalForecast/DigitalForecast-SulawesiTengah.xml"@ =~= self.address());
                }
                "https://data.bmkg.go.id/DataMKG/MEWS/DigitalForecast/DigitalForecast-SulawesiTengah.xml"
            },
            Url::SulawesiTenggara => {
                proof {
                    reveal_strlit("SulawesiTenggara");
                    reveal_strlit("https://data.bmkg.go.id/DataMKG/MEWS/DigitalForecast/DigitalForecast-SulawesiTenggara.xml");
                    assert("https://data.bmkg.go.id/DataMKG/MEWS/DigitalForecast/DigitalForecast-SulawesiTenggara.xml"@ =~= self.address());
                }
                "https://data.bmkg.go.id/DataMKG/MEWS/DigitalForecast/DigitalForecast-SulawesiTenggara.xml"
            },
            Url::SulawesiUtara => {
                proof {
                    reveal_strlit("SulawesiUtara");
                    reveal_strlit("https://data.bmkg.go.id/DataMKG/MEWS/DigitalForecast/DigitalForecast-SulawesiUtara.xml");
                    assert("https://data.bmkg.go.id/DataMKG/MEWS/DigitalForecast/DigitalForecast-SulawesiUtara.xml"@ =~= self.address());
                }
                "https://data.bmkg.go.id/DataMKG/MEWS/DigitalForecast/DigitalForecast-SulawesiUtara.xml"
            },
            Url::SumateraBarat => {
                proof {
                    reveal_strlit("SumateraBarat");
                    reveal_strlit("https://data.bmkg.go.id/DataMKG/MEWS/DigitalForecast/DigitalForecast-SumateraBarat.xml");
                    assert("https://data.bmkg.go.id/DataMKG/MEWS/DigitalForecast/DigitalForecast-SumateraBarat.xml"@ =~= self.address());
                }
                "https://data.bmkg.go.id/DataMKG/MEWS/DigitalForecast/DigitalForecast-SumateraBarat.xml"
            },
            Url::SumateraSelatan => {
                proof {
                    reveal_strlit("SumateraSelatan");
                    reveal_strlit("https://data.bmkg.go.id/DataMKG/MEWS/DigitalForecast/DigitalForecast-SumateraSelatan.xml");
                    assert("https://data.bmkg.go.id/DataMKG/MEWS/DigitalForecast/DigitalForecast-SumateraSelatan.xml"@ =~= self.address());
                }
                "https://data.bmkg.go.id/DataMKG/MEWS/DigitalForecast/DigitalForecast-SumateraSelatan.xml"
            },
            Url::SumateraUtara => {
                proof {
                    reveal_strlit("SumateraUtara");
                    reveal_strlit("https://data.bmkg.go.id/DataMKG/MEWS/DigitalForecast/DigitalForecast-SumateraUtara.xml");
                    assert("https://data.bmkg.go.id/DataMKG/MEWS/DigitalForecast/DigitalForecast-SumateraUtara.xml"@ =~= self.address());
                }
                "https://data.bmkg.go.id/DataMKG/MEWS/DigitalForecast/DigitalForecast-SumateraUtara.xml"
            },
            Url::Indonesia => {
                proof {
                    reveal_strlit("Indonesia");
                    reveal_strlit("https://data.bmkg.go.id/DataMKG/MEWS/DigitalForecast/DigitalForecast-Indonesia.xml");
                    assert("https://data.bmkg.go.id/DataMKG/MEWS/DigitalForecast/DigitalForecast-Indonesia.xml"@ =~= self.address());
                }
                "https://data.bmkg.go.id/DataMKG/MEWS/DigitalForecast/DigitalForecast-Indonesia.xml"
            },
        }
    }

    /// Looks a feed up by its name, which must already be in lowercase.
    pub fn from_lowercase(name: &str) -> (url: Option<Url>)
        ensures
            url == Url::named(name@),
    {
        if str_eq(name, "aceh") {
            Some(Url::Aceh)
        } else if str_eq(name, "bali") {
            Some(Url::Bali)
        } else if str_eq(name, "bangka_belitung") {
            Some(Url::BangkaBelitung)
        } else if str_eq(name, "banten") {
            Some(Url::Banten)
        } else if str_eq(name, "bengkulu") {
            Some(Url::Bengkulu)
        } else if str_eq(name, "dyi") {
            Some(Url::DIY)
        } else if str_eq(name, "dki") {
            Some(Url::DKI)
        } else if str_eq(name, "gorontalo") {
            Some(Url::Gorontalo)
        } else if str_eq(name, "jambi") {
            Some(Url::Jambi)
        } else if str_eq(name, "jabar") {
            Some(Url::JawaBarat)
        } else if str_eq(name, "jateng") {
            Some(Url::JawaTengah)
        } else if str_eq(name, "jatim") {
            Some(Url::JawaTimur)
        } else if str_eq(name, "kalbar") {
            Some(Url::Kalbar)
        } else if str_eq(name, "kalsel") {
            Some(Url::Kalsel)
        } else if str_eq(name, "kalteng") {
            Some(Url::Kalteng)
        } else if str_eq(name, "kaltim") {
            Some(Url::Kaltim)
        } else if str_eq(name, "kaltara") {
            Some(Url::Kaltara)
        } else if str_eq(name, "kepri") {
            Some(Url::KepulauanRiau)
        } else if str_eq(name, "lampung") {
            Some(Url::Lampung)
        } else if str_eq(name, "maluku_utara") {
            Some(Url::MalukuUtara)
        } else if str_eq(name, "maluku") {
            Some(Url::Maluku)
        } else if str_eq(name, "ntb") {
            Some(Url::NTB)
        } else if str_eq(name, "ntt") {
            Some(Url::NTT)
        } else if str_eq(name, "papua") {
            Some(Url::Papua)
        } else if str_eq(name, "papua_barat") {
            Some(Url::PapuaBarat)
        } else if str_eq(name, "riau") {
            Some(Url::Riau)
        } else if str_eq(name, "sulawesi_barat") {
            Some(Url::SulawesiBarat)
        } else if str_eq(name, "sulawesi_selatan") {
            Some(Url::SulawesiSelatan)
        } else if str_eq(name, "sulawesi_tengah") {
            Some(Url::SulawesiTengah)
        } else if str_eq(name, "sulawesi_tenggara") {
            Some(Url::SulawesiTenggara)
        } else if str_eq(name, "sulawesi_utara") {
            Some(Url::SulawesiUtara)
        } else if str_eq(name, "sumatera_barat") {
            Some(Url::SumateraUtara)
        } else if str_eq(name, "sumatera_selatan") {
            Some(Url::SumateraSelatan)
        } else if str_eq(name, "sumatera_utara") {
            Some(Url::SumateraUtara)
        } else if str_eq(name, "indonesia") {
            Some(Url::Indonesia)
        } else {
            None
        }
    }

    /// Looks a feed up by its name, ignoring case.
    pub fn from_str<T: Text>(s: T) -> (url: Option<Url>)
        ensures
            url == Url::named(lowercase_of(s.text())),
    {
        let name = to_lowercase(s.as_text());
        Url::from_lowercase(name.as_str())
    }
}

/// A single measurement.
#[derive(Debug)]
pub struct Value {
    /// Unit of the measurement, from the element's attribute.
    pub unit: Option<String>,
    /// The measurement, from the element's character data.
    pub value: Option<String>,
}

/// A [`Value`] as plain values, field for field.
pub struct ValueView {
    pub unit: Option<Seq<char>>,
    pub value: Option<Seq<char>>,
}

impl ValueView {
    /// The record in which nothing is set.
    pub open spec fn empty() -> ValueView {
        ValueView {
            unit: None,
            value: None,
        }
    }
}

impl View for Value {
    type V = ValueView;

    open spec fn view(&self) -> ValueView {
        ValueView {
            unit: self.unit.deep_view(),
            value: self.value.deep_view(),
        }
    }
}

impl DeepView for Value {
    type V = ValueView;

    open spec fn deep_view(&self) -> ValueView {
        self@
    }
}

impl Clone for Value {
    /// A copy that holds the same values all the way down.
    fn clone(&self) -> (copy: Self)
        ensures
            copy@ == self@,
    {
        Value {
            unit: self.unit.clone(),
            value: self.value.clone(),
        }
    }
}

impl Value {
    /// A record in which nothing is set.
    pub fn new() -> (fresh: Self)
        ensures
            fresh@ == ValueView::empty(),
    {
        Self {
            unit: None,
            value: None,
        }
    }
}

/// One forecast interval.
#[derive(Debug)]
pub struct TimeRange {
    /// Kind of interval.
    pub typ: Option<String>,
    /// Offset in hours from the time of issue.
    pub h: Option<String>,
    /// Start of the interval.
    pub datetime: Option<String>,
    /// The measurements of the interval, in document order.
    pub values: Vec<Value>,
}

/// A [`TimeRange`] as plain values, field for field.
pub struct TimeRangeView {
    pub typ: Option<Seq<char>>,
    pub h: Option<Seq<char>>,
    pub datetime: Option<Seq<char>>,
    pub values: Seq<ValueView>,
}

impl TimeRangeView {
    /// The record in which nothing is set and every list is empty.
    pub open spec fn empty() -> TimeRangeView {
        TimeRangeView {
            typ: None,
            h: None,
            datetime: None,
            values: Seq::empty(),
        }
    }
}

impl View for TimeRange {
    type V = TimeRangeView;

    open spec fn view(&self) -> TimeRangeView {
        TimeRangeView {
            typ: self.typ.deep_view(),
            h: self.h.deep_view(),
            datetime: self.datetime.deep_view(),
            values: self.values.deep_view(),
        }
    }
}

impl DeepView for TimeRange {
    type V = TimeRangeView;

    open spec fn deep_view(&self) -> TimeRangeView {
        self@
    }
}

impl Clone for TimeRange {
    /// A copy that holds the same values all the way down.
    fn clone(&self) -> (copy: Self)
        ensures
            copy@ == self@,
    {
        let values = self.values.clone();
        assert(values.deep_view() =~= self.values.deep_view());
        TimeRange {
            typ: self.typ.clone(),
            h: self.h.clone(),
            datetime: self.datetime.clone(),
            values,
        }
    }
}

impl TimeRange {
    /// A record in which nothing is set and every list is empty.
    pub fn new() -> (fresh: Self)
        ensures
            fresh@ == TimeRangeView::empty(),
    {
        let fresh = Self {
            typ: None,
            h: None,
            datetime: None,
            values: Vec::new(),
        };
        assert(fresh.values.deep_view() =~= Seq::empty());
        fresh
    }
}

/// One forecast quantity, such as temperature.
#[derive(Debug)]
pub struct Parameter {
    /// Short name of the quantity.
    pub id: Option<String>,
    /// Long name of the quantity.
    pub description: Option<String>,
    /// Kind of quantity.
    pub typ: Option<String>,
    /// The intervals of the quantity, in document order.
    pub timeranges: Vec<TimeRange>,
}

/// A [`Parameter`] as plain values, field for field.
pub struct ParameterView {
    pub id: Option<Seq<char>>,
    pub description: Option<Seq<char>>,
    pub typ: Option<Seq<char>>,
    pub timeranges: Seq<TimeRangeView>,
}

impl ParameterView {
    /// The record in which nothing is set and every list is empty.
    pub open spec fn empty() -> ParameterView {
        ParameterView {
            id: None,
            description: None,
            typ: None,
            timeranges: Seq::empty(),
        }
    }
}

impl View for Parameter {
    type V = ParameterView;

    open spec fn view(&self) -> ParameterView {
        ParameterView {
            id: self.id.deep_view(),
            description: self.description.deep_view(),
            typ: self.typ.deep_view(),
            timeranges: self.timeranges.deep_view(),
        }
    }
}

impl DeepView for Parameter {
    type V = ParameterView;

    open spec fn deep_view(&self) -> ParameterView {
        self@
    }
}

impl Clone for Parameter {
    /// A copy that holds the same values all the way down.
    fn clone(&self) -> (copy: Self)
        ensures
            copy@ == self@,
    {
        let timeranges = self.timeranges.clone();
        assert(timeranges.deep_view() =~= self.timeranges.deep_view());
        Parameter {
            id: self.id.clone(),
            description: self.description.clone(),
            typ: self.typ.clone(),
            timeranges,
        }
    }
}

impl Parameter {
    /// A record in which nothing is set and every list is empty.
    pub fn new() -> (fresh: Self)
        ensures
            fresh@ == ParameterView::empty(),
    {
        let fresh = Self {
            id: None,
            description: None,
            typ: None,
            timeranges: Vec::new(),
        };
        assert(fresh.timeranges.deep_view() =~= Seq::empty());
        fresh
    }
}

/// A place name in one language.
#[derive(Debug)]
pub struct Name {
    /// Language of the name, from the element's attribute.
    pub lang: Option<String>,
    /// The name, from the element's character data.
    pub text: Option<String>,
}

/// A [`Name`] as plain values, field for field.
pub struct NameView {
    pub lang: Option<Seq<char>>,
    pub text: Option<Seq<char>>,
}

impl NameView {
    /// The record in which nothing is set.
    pub open spec fn empty() -> NameView {
        NameView {
            lang: None,
            text: None,
        }
    }
}

impl View for Name {
    type V = NameView;

    open spec fn view(&self) -> NameView {
        NameView {
            lang: self.lang.deep_view(),
            text: self.text.deep_view(),
        }
    }
}

impl DeepView for Name {
    type V = NameView;

    open spec fn deep_view(&self) -> NameView {
        self@
    }
}

impl Clone for Name {
    /// A copy that holds the same values all the way down.
    fn clone(&self) -> (copy: Self)
        ensures
            copy@ == self@,
    {
        Name {
            lang: self.lang.clone(),
            text: self.text.clone(),
        }
    }
}

impl Name {
    /// A record in which nothing is set.
    pub fn new() -> (fresh: Self)
        ensures
            fresh@ == NameView::empty(),
    {
        Self {
            lang: None,
            text: None,
        }
    }
}

/// A forecast location.
#[derive(Debug)]
pub struct Area {
    /// Identifier of the location.
    pub id: Option<String>,
    /// Latitude.
    pub latitude: Option<String>,
    /// Longitude.
    pub longitude: Option<String>,
    /// Longitude and latitude as one string.
    pub coordinate: Option<String>,
    /// Kind of location.
    pub typ: Option<String>,
    /// Region code.
    pub region: Option<String>,
    /// Administrative level.
    pub level: Option<String>,
    /// Description of the location.
    pub description: Option<String>,
    /// Province of the location.
    pub domain: Option<String>,
    /// Free-form tags.
    pub tags: Option<String>,
    /// The names of the location, in document order.
    pub names: Vec<Name>,
    /// The forecast quantities of the location, in document order.
    pub parameters: Vec<Parameter>,
}

/// A [`Area`] as plain values, field for field.
pub struct AreaView {
    pub id: Option<Seq<char>>,
    pub latitude: Option<Seq<char>>,
    pub longitude: Option<Seq<char>>,
    pub coordinate: Option<Seq<char>>,
    pub typ: Option<Seq<char>>,
    pub region: Option<Seq<char>>,
    pub level: Option<Seq<char>>,
    pub description: Option<Seq<char>>,
    pub domain: Option<Seq<char>>,
    pub tags: Option<Seq<char>>,
    pub names: Seq<NameView>,
    pub parameters: Seq<ParameterView>,
}

impl AreaView {
    /// The record in which nothing is set and every list is empty.
    pub open spec fn empty() -> AreaView {
        AreaView {
            id: None,
            latitude: None,
            longitude: None,
            coordinate: None,
            typ: None,
            region: None,
            level: None,
            description: None,
            domain: None,
            tags: None,
            names: Seq::empty(),
            parameters: Seq::empty(),
        }
    }
}

impl View for Area {
    type V = AreaView;

    open spec fn view(&self) -> AreaView {
        AreaView {
            id: self.id.deep_view(),
            latitude: self.latitude.deep_view(),
            longitude: self.longitude.deep_view(),
            coordinate: self.coordinate.deep_view(),
            typ: self.typ.deep_view(),
            region: self.region.deep_view(),
            level: self.level.deep_view(),
            description: self.description.deep_view(),
            domain: self.domain.deep_view(),
            tags: self.tags.deep_view(),
            names: self.names.deep_view(),
            parameters: self.parameters.deep_view(),
        }
    }
}

impl DeepView for Area {
    type V = AreaView;

    open spec fn deep_view(&self) -> AreaView {
        self@
    }
}

impl Clone for Area {
    /// A copy that holds the same values all the way down.
    fn clone(&self) -> (copy: Self)
        ensures
            copy@ == self@,
    {
        let names = self.names.clone();
        assert(names.deep_view() =~= self.names.deep_view());
        let parameters = self.parameters.clone();
        assert(parameters.deep_view() =~= self.parameters.deep_view());
        Area {
            id: self.id.clone(),
            latitude: self.latitude.clone(),
            longitude: self.longitude.clone(),
            coordinate: self.coordinate.clone(),
            typ: self.typ.clone(),
            region: self.region.clone(),
            level: self.level.clone(),
            description: self.description.clone(),
            domain: self.domain.clone(),
            tags: self.tags.clone(),
            names,
            parameters,
        }
    }
}

impl Area {
    /// A record in which nothing is set and every list is empty.
    pub fn new() -> (fresh: Self)
        ensures
            fresh@ == AreaView::empty(),
    {
        let fresh = Self {
            id: None,
            latitude: None,
            longitude: None,
            coordinate: None,
            typ: None,
            region: None,
            level: None,
            description: None,
            domain: None,
            tags: None,
            names: Vec::new(),
            parameters: Vec::new(),
        };
        assert(fresh.names.deep_view() =~= Seq::empty());
        assert(fresh.parameters.deep_view() =~= Seq::empty());
        fresh
    }
}

/// When a forecast was published.
#[derive(Debug)]
pub struct Issue {
    /// The whole time as one string.
    pub timestamp: Option<String>,
    /// Year.
    pub year: Option<String>,
    /// Month.
    pub month: Option<String>,
    /// Day of the month.
    pub day: Option<String>,
    /// Hour.
    pub hour: Option<String>,
    /// Minute.
    pub minute: Option<String>,
    /// Second.
    pub second: Option<String>,
}

/// A [`Issue`] as plain values, field for field.
pub struct IssueView {
    pub timestamp: Option<Seq<char>>,
    pub year: Option<Seq<char>>,
    pub month: Option<Seq<char>>,
    pub day: Option<Seq<char>>,
    pub hour: Option<Seq<char>>,
    pub minute: Option<Seq<char>>,
    pub second: Option<Seq<char>>,
}

impl IssueView {
    /// The record in which nothing is set.
    pub open spec fn empty() -> IssueView {
        IssueView {
            timestamp: None,
            year: None,
            month: None,
            day: None,
            hour: None,
            minute: None,
            second: None,
        }
    }
}

impl View for Issue {
    type V = IssueView;

    open spec fn view(&self) -> IssueView {
        IssueView {
            timestamp: self.timestamp.deep_view(),
            year: self.year.deep_view(),
            month: self.month.deep_view(),
            day: self.day.deep_view(),
            hour: self.hour.deep_view(),
            minute: self.minute.deep_view(),
            second: self.second.deep_view(),
        }
    }
}

impl DeepView for Issue {
    type V = IssueView;

    open spec fn deep_view(&self) -> IssueView {
        self@
    }
}

impl Clone for Issue {
    /// A copy that holds the same values all the way down.
    fn clone(&self) -> (copy: Self)
        ensures
            copy@ == self@,
    {
        Issue {
            timestamp: self.timestamp.clone(),
            year: self.year.clone(),
            month: self.month.clone(),
            day: self.day.clone(),
            hour: self.hour.clone(),
            minute: self.minute.clone(),
            second: self.second.clone(),
        }
    }
}

impl Issue {
    /// A record in which nothing is set.
    pub fn new() -> (fresh: Self)
        ensures
            fresh@ == IssueView::empty(),
    {
        Self {
            timestamp: None,
            year: None,
            month: None,
            day: None,
            hour: None,
            minute: None,
            second: None,
        }
    }
}

/// A forecast: when it was issued and what it says of each location.
#[derive(Debug)]
pub struct Forecast {
    /// Coverage of the forecast.
    pub domain: Option<String>,
    /// When the forecast was published.
    pub issue: Option<Issue>,
    /// The locations of the forecast, in document order.
    pub areas: Vec<Area>,
}

/// A [`Forecast`] as plain values, field for field.
pub struct ForecastView {
    pub domain: Option<Seq<char>>,
    pub issue: Option<IssueView>,
    pub areas: Seq<AreaView>,
}

impl ForecastView {
    /// The record in which nothing is set and every list is empty.
    pub open spec fn empty() -> ForecastView {
        ForecastView {
            domain: None,
            issue: None,
            areas: Seq::empty(),
        }
    }
}

impl View for Forecast {
    type V = ForecastView;

    open spec fn view(&self) -> ForecastView {
        ForecastView {
            domain: self.domain.deep_view(),
            issue: self.issue.deep_view(),
            areas: self.areas.deep_view(),
        }
    }
}

impl DeepView for Forecast {
    type V = ForecastView;

    open spec fn deep_view(&self) -> ForecastView {
        self@
    }
}

impl Clone for Forecast {
    /// A copy that holds the same values all the way down.
    fn clone(&self) -> (copy: Self)
        ensures
            copy@ == self@,
    {
        let areas = self.areas.clone();
        assert(areas.deep_view() =~= self.areas.deep_view());
        let issue = self.issue.clone();
        Forecast {
            domain: self.domain.clone(),
            issue,
            areas,
        }
    }
}

impl Forecast {
    /// A record in which nothing is set and every list is empty.
    pub fn new() -> (fresh: Self)
        ensures
            fresh@ == ForecastView::empty(),
    {
        let fresh = Self {
            domain: None,
            issue: None,
            areas: Vec::new(),
        };
        assert(fresh.areas.deep_view() =~= Seq::empty());
        fresh
    }
}

/// The root of a forecast document.
#[derive(Debug)]
pub struct Data {
    /// Publisher of the document.
    pub source: Option<String>,
    /// Office that produced the document.
    pub production_center: Option<String>,
    /// The forecast of the document.
    pub forecast: Option<Forecast>,
}

/// A [`Data`] as plain values, field for field.
pub struct DataView {
    pub source: Option<Seq<char>>,
    pub production_center: Option<Seq<char>>,
    pub forecast: Option<ForecastView>,
}

impl DataView {
    /// The record in which nothing is set.
    pub open spec fn empty() -> DataView {
        DataView {
            source: None,
            production_center: None,
            forecast: None,
        }
    }
}

impl View for Data {
    type V = DataView;

    open spec fn view(&self) -> DataView {
        DataView {
            source: self.source.deep_view(),
            production_center: self.production_center.deep_view(),
            forecast: self.forecast.deep_view(),
        }
    }
}

impl DeepView for Data {
    type V = DataView;

    open spec fn deep_view(&self) -> DataView {
        self@
    }
}

impl Clone for Data {
    /// A copy that holds the same values all the way down.
    fn clone(&self) -> (copy: Self)
        ensures
            copy@ == self@,
    {
        let forecast = self.forecast.clone();
        Data {
            source: self.source.clone(),
            production_center: self.production_center.clone(),
            forecast,
        }
    }
}

impl Data {
    /// A record in which nothing is set.
    pub fn new() -> (fresh: Self)
        ensures
            fresh@ == DataView::empty(),
    {
        Self {
            source: None,
            production_center: None,
            forecast: None,
        }
    }
}

} // verus!
