use vstd::prelude::*;

use crate::text::str_equal;


verus! {

/// The cities that the rail network serves, in the order in which the catalogue lists them.
#[derive(Clone, Copy, Debug, PartialEq, Eq, Structural)]
pub enum City {
    ACoruna,
    Aalborg,
    Aarhus,
    Alicante,
    Almeria,
    Amiens,
    Amsterdam,
    Ancona,
    Angers,
    Annecy,
    Antwerp,
    Arezzo,
    Ashford,
    Augsburg,
    Avignon,
    Badajoz,
    Barcelona,
    Bari,
    Basel,
    Belgrade,
    Bergamo,
    Bergen,
    Berlin,
    Bern,
    Besancon,
    Bilbao,
    Birmingham,
    Bochum,
    Bologna,
    Bolzano,
    Bonn,
    Bordeaux,
    Bratislava,
    Brasov,
    Bremen,
    Brescia,
    Brest,
    Brighton,
    Brindisi,
    Bristol,
    Brno,
    Bruges,
    Brussels,
    Bucharest,
    Budapest,
    Burgas,
    Burgos,
    Calais,
    Cambridge,
    Cardiff,
    Cartagena,
    Catania,
    Chambery,
    ClermontFerrand,
    ClujNapoca,
    Cologne,
    Como,
    Copenhagen,
    Cork,
    Cuenca,
    Cadiz,
    Cordoba,
    Debrecen,
    Derby,
    Dijon,
    Dortmund,
    Drammen,
    Dresden,
    Dublin,
    Dusseldorf,
    Edinburgh,
    Eindhoven,
    Essen,
    Exeter,
    Ferrara,
    Florence,
    Forli,
    Frankfurt,
    Galway,
    Gdansk,
    Gdynia,
    Geneva,
    Genoa,
    Ghent,
    Glasgow,
    Gothenburg,
    Granada,
    Graz,
    Grenoble,
    Hamburg,
    Hannover,
    Heidelberg,
    Helsingborg,
    Helsinki,
    Iasi,
    Innsbruck,
    Karlsruhe,
    Katowice,
    Kiel,
    Kosice,
    Krakow,
    LAquila,
    LaRochelle,
    LaSpezia,
    Lausanne,
    LeMans,
    Leeds,
    Leicester,
    Leipzig,
    Lille,
    Limerick,
    Limoges,
    Linkoping,
    Linz,
    Lisbon,
    Liverpool,
    Livorno,
    Liege,
    Ljubljana,
    Logrono,
    London,
    Lublin,
    Lucerne,
    Lugano,
    Lund,
    Lyon,
    Madrid,
    Malmo,
    Manchester,
    Mannheim,
    Maribor,
    Marseille,
    Messina,
    Metz,
    Milan,
    Modena,
    Montpellier,
    Mostar,
    Mulhouse,
    Munich,
    Murcia,
    Malaga,
    Nancy,
    Nantes,
    Naples,
    Narbonne,
    Newcastle,
    Nice,
    Nis,
    Norrkoping,
    Nottingham,
    NoviSad,
    Nuremberg,
    Nimes,
    Odense,
    Oslo,
    Ostrava,
    Oulu,
    Oviedo,
    Oxford,
    Padua,
    Palermo,
    Pamplona,
    Paris,
    Parma,
    Perpignan,
    Perugia,
    Piacenza,
    Pisa,
    Plovdiv,
    Plymouth,
    Plzen,
    Poitiers,
    Porto,
    Portsmouth,
    Potsdam,
    Poznan,
    Prague,
    Pecs,
    Ravenna,
    Reading,
    Regensburg,
    ReggioCalabria,
    ReggioEmilia,
    Reims,
    Rennes,
    Rijeka,
    Rimini,
    Rome,
    Rostock,
    Rotterdam,
    Rouen,
    Salamanca,
    Salerno,
    Salzburg,
    SanSebastian,
    Santander,
    SantiagoDeCompostela,
    Sarajevo,
    Seville,
    Sheffield,
    Sofia,
    Sopot,
    Southampton,
    Split,
    StGallen,
    Stavanger,
    Stockholm,
    Strasbourg,
    Stuttgart,
    Swansea,
    Szeged,
    Tampere,
    Taranto,
    Terni,
    TheHague,
    Thessaloniki,
    Timisoara,
    Toledo,
    Toulouse,
    Tours,
    Trento,
    Trieste,
    Trondheim,
    Turin,
    Turku,
    Uppsala,
    Utrecht,
    Valencia,
    Valladolid,
    Varna,
    Venice,
    Verona,
    Versailles,
    Vicenza,
    Vienna,
    Vigo,
    Vasteras,
    Warsaw,
    Waterford,
    Wroclaw,
    Wurzburg,
    York,
    Zagreb,
    Zaragoza,
    Zurich,
    Orebro,
    CeskeBudejovice,
    Lodz,
}

/// The display name of a city.
pub open spec fn city_name(c: City) -> Seq<char> {
    match c {
        City::ACoruna => "A Coruña"@,
        City::Aalborg => "Aalborg"@,
        City::Aarhus => "Aarhus"@,
        City::Alicante => "Alicante"@,
        City::Almeria => "Almería"@,
        City::Amiens => "Amiens"@,
        City::Amsterdam => "Amsterdam"@,
        City::Ancona => "Ancona"@,
        City::Angers => "Angers"@,
        City::Annecy => "Annecy"@,
        City::Antwerp => "Antwerp"@,
        City::Arezzo => "Arezzo"@,
        City::Ashford => "Ashford"@,
        City::Augsburg => "Augsburg"@,
        City::Avignon => "Avignon"@,
        City::Badajoz => "Badajoz"@,
        City::Barcelona => "Barcelona"@,
        City::Bari => "Bari"@,
        City::Basel => "Basel"@,
        City::Belgrade => "Belgrade"@,
        City::Bergamo => "Bergamo"@,
        City::Bergen => "Bergen"@,
        City::Berlin => "Berlin"@,
        City::Bern => "Bern"@,
        City::Besancon => "Besançon"@,
        City::Bilbao => "Bilbao"@,
        City::Birmingham => "Birmingham"@,
        City::Bochum => "Bochum"@,
        City::Bologna => "Bologna"@,
        City::Bolzano => "Bolzano"@,
        City::Bonn => "Bonn"@,
        City::Bordeaux => "Bordeaux"@,
        City::Bratislava => "Bratislava"@,
        City::Brasov => "Brașov"@,
        City::Bremen => "Bremen"@,
        City::Brescia => "Brescia"@,
        City::Brest => "Brest"@,
        City::Brighton => "Brighton"@,
        City::Brindisi => "Brindisi"@,
        City::Bristol => "Bristol"@,
        City::Brno => "Brno"@,
        City::Bruges => "Bruges"@,
        City::Brussels => "Brussels"@,
        City::Bucharest => "Bucharest"@,
        City::Budapest => "Budapest"@,
        City::Burgas => "Burgas"@,
        City::Burgos => "Burgos"@,
        City::Calais => "Calais"@,
        City::Cambridge => "Cambridge"@,
        City::Cardiff => "Cardiff"@,
        City::Cartagena => "Cartagena"@,
        City::Catania => "Catania"@,
        City::Chambery => "Chambéry"@,
        City::ClermontFerrand => "Clermont-Ferrand"@,
        City::ClujNapoca => "Cluj-Napoca"@,
        City::Cologne => "Cologne"@,
        City::Como => "Como"@,
        City::Copenhagen => "Copenhagen"@,
        City::Cork => "Cork"@,
        City::Cuenca => "Cuenca"@,
        City::Cadiz => "Cádiz"@,
        City::Cordoba => "Córdoba"@,
        City::Debrecen => "Debrecen"@,
        City::Derby => "Derby"@,
        City::Dijon => "Dijon"@,
        City::Dortmund => "Dortmund"@,
        City::Drammen => "Drammen"@,
        City::Dresden => "Dresden"@,
        City::Dublin => "Dublin"@,
        City::Dusseldorf => "Düsseldorf"@,
        City::Edinburgh => "Edinburgh"@,
        City::Eindhoven => "Eindhoven"@,
        City::Essen => "Essen"@,
        City::Exeter => "Exeter"@,
        City::Ferrara => "Ferrara"@,
        City::Florence => "Florence"@,
        City::Forli => "Forlì"@,
        City::Frankfurt => "Frankfurt"@,
        City::Galway => "Galway"@,
        City::Gdansk => "Gdańsk"@,
        City::Gdynia => "Gdynia"@,
        City::Geneva => "Geneva"@,
        City::Genoa => "Genoa"@,
        City::Ghent => "Ghent"@,
        City::Glasgow => "Glasgow"@,
        City::Gothenburg => "Gothenburg"@,
        City::Granada => "Granada"@,
        City::Graz => "Graz"@,
        City::Grenoble => "Grenoble"@,
        City::Hamburg => "Hamburg"@,
        City::Hannover => "Hannover"@,
        City::Heidelberg => "Heidelberg"@,
        City::Helsingborg => "Helsingborg"@,
        City::Helsinki => "Helsinki"@,
        City::Iasi => "Iași"@,
        City::Innsbruck => "Innsbruck"@,
        City::Karlsruhe => "Karlsruhe"@,
        City::Katowice => "Katowice"@,
        City::Kiel => "Kiel"@,
        City::Kosice => "Košice"@,
        City::Krakow => "Krakow"@,
        City::LAquila => "L'Aquila"@,
        City::LaRochelle => "La Rochelle"@,
        City::LaSpezia => "La Spezia"@,
        City::Lausanne => "Lausanne"@,
        City::LeMans => "Le Mans"@,
        City::Leeds => "Leeds"@,
        City::Leicester => "Leicester"@,
        City::Leipzig => "Leipzig"@,
        City::Lille => "Lille"@,
        City::Limerick => "Limerick"@,
        City::Limoges => "Limoges"@,
        City::Linkoping => "Linköping"@,
        City::Linz => "Linz"@,
        City::Lisbon => "Lisbon"@,
        City::Liverpool => "Liverpool"@,
        City::Livorno => "Livorno"@,
        City::Liege => "Liège"@,
        City::Ljubljana => "Ljubljana"@,
        City::Logrono => "Logroño"@,
        City::London => "London"@,
        City::Lublin => "Lublin"@,
        City::Lucerne => "Lucerne"@,
        City::Lugano => "Lugano"@,
        City::Lund => "Lund"@,
        City::Lyon => "Lyon"@,
        City::Madrid => "Madrid"@,
        City::Malmo => "Malmö"@,
        City::Manchester => "Manchester"@,
        City::Mannheim => "Mannheim"@,
        City::Maribor => "Maribor"@,
        City::Marseille => "Marseille"@,
        City::Messina => "Messina"@,
        City::Metz => "Metz"@,
        City::Milan => "Milan"@,
        City::Modena => "Modena"@,
        City::Montpellier => "Montpellier"@,
        City::Mostar => "Mostar"@,
        City::Mulhouse => "Mulhouse"@,
        City::Munich => "Munich"@,
        City::Murcia => "Murcia"@,
        City::Malaga => "Málaga"@,
        City::Nancy => "Nancy"@,
        City::Nantes => "Nantes"@,
        City::Naples => "Naples"@,
        City::Narbonne => "Narbonne"@,
        City::Newcastle => "Newcastle"@,
        City::Nice => "Nice"@,
        City::Nis => "Niš"@,
        City::Norrkoping => "Norrköping"@,
        City::Nottingham => "Nottingham"@,
        City::NoviSad => "Novi Sad"@,
        City::Nuremberg => "Nuremberg"@,
        City::Nimes => "Nîmes"@,
        City::Odense => "Odense"@,
        City::Oslo => "Oslo"@,
        City::Ostrava => "Ostrava"@,
        City::Oulu => "Oulu"@,
        City::Oviedo => "Oviedo"@,
        City::Oxford => "Oxford"@,
        City::Padua => "Padua"@,
        City::Palermo => "Palermo"@,
        City::Pamplona => "Pamplona"@,
        City::Paris => "Paris"@,
        City::Parma => "Parma"@,
        City::Perpignan => "Perpignan"@,
        City::Perugia => "Perugia"@,
        City::Piacenza => "Piacenza"@,
        City::Pisa => "Pisa"@,
        City::Plovdiv => "Plovdiv"@,
        City::Plymouth => "Plymouth"@,
        City::Plzen => "Plzeň"@,
        City::Poitiers => "Poitiers"@,
        City::Porto => "Porto"@,
        City::Portsmouth => "Portsmouth"@,
        City::Potsdam => "Potsdam"@,
        City::Poznan => "Poznań"@,
        City::Prague => "Prague"@,
        City::Pecs => "Pécs"@,
        City::Ravenna => "Ravenna"@,
        City::Reading => "Reading"@,
        City::Regensburg => "Regensburg"@,
        City::ReggioCalabria => "Reggio Calabria"@,
        City::ReggioEmilia => "Reggio Emilia"@,
        City::Reims => "Reims"@,
        City::Rennes => "Rennes"@,
        City::Rijeka => "Rijeka"@,
        City::Rimini => "Rimini"@,
        City::Rome => "Rome"@,
        City::Rostock => "Rostock"@,
        City::Rotterdam => "Rotterdam"@,
        City::Rouen => "Rouen"@,
        City::Salamanca => "Salamanca"@,
        City::Salerno => "Salerno"@,
        City::Salzburg => "Salzburg"@,
        City::SanSebastian => "San Sebastián"@,
        City::Santander => "Santander"@,
        City::SantiagoDeCompostela => "Santiago de Compostela"@,
        City::Sarajevo => "Sarajevo"@,
        City::Seville => "Seville"@,
        City::Sheffield => "Sheffield"@,
        City::Sofia => "Sofia"@,
        City::Sopot => "Sopot"@,
        City::Southampton => "Southampton"@,
        City::Split => "Split"@,
        City::StGallen => "St. Gallen"@,
        City::Stavanger => "Stavanger"@,
        City::Stockholm => "Stockholm"@,
        City::Strasbourg => "Strasbourg"@,
        City::Stuttgart => "Stuttgart"@,
        City::Swansea => "Swansea"@,
        City::Szeged => "Szeged"@,
        City::Tampere => "Tampere"@,
        City::Taranto => "Taranto"@,
        City::Terni => "Terni"@,
        City::TheHague => "The Hague"@,
        City::Thessaloniki => "Thessaloniki"@,
        City::Timisoara => "Timișoara"@,
        City::Toledo => "Toledo"@,
        City::Toulouse => "Toulouse"@,
        City::Tours => "Tours"@,
        City::Trento => "Trento"@,
        City::Trieste => "Trieste"@,
        City::Trondheim => "Trondheim"@,
        City::Turin => "Turin"@,
        City::Turku => "Turku"@,
        City::Uppsala => "Uppsala"@,
        City::Utrecht => "Utrecht"@,
        City::Valencia => "Valencia"@,
        City::Valladolid => "Valladolid"@,
        City::Varna => "Varna"@,
        City::Venice => "Venice"@,
        City::Verona => "Verona"@,
        City::Versailles => "Versailles"@,
        City::Vicenza => "Vicenza"@,
        City::Vienna => "Vienna"@,
        City::Vigo => "Vigo"@,
        City::Vasteras => "Västerås"@,
        City::Warsaw => "Warsaw"@,
        City::Waterford => "Waterford"@,
        City::Wroclaw => "Wrocław"@,
        City::Wurzburg => "Würzburg"@,
        City::York => "York"@,
        City::Zagreb => "Zagreb"@,
        City::Zaragoza => "Zaragoza"@,
        City::Zurich => "Zurich"@,
        City::Orebro => "Örebro"@,
        City::CeskeBudejovice => "České Budějovice"@,
        City::Lodz => "Łódź"@,
    }
}

/// Every city once, in catalogue order.
pub open spec fn city_list() -> Seq<City> {
    seq![
        City::ACoruna,
        City::Aalborg,
        City::Aarhus,
        City::Alicante,
        City::Almeria,
        City::Amiens,
        City::Amsterdam,
        City::Ancona,
        City::Angers,
        City::Annecy,
        City::Antwerp,
        City::Arezzo,
        City::Ashford,
        City::Augsburg,
        City::Avignon,
        City::Badajoz,
        City::Barcelona,
        City::Bari,
        City::Basel,
        City::Belgrade,
        City::Bergamo,
        City::Bergen,
        City::Berlin,
        City::Bern,
        City::Besancon,
        City::Bilbao,
        City::Birmingham,
        City::Bochum,
        City::Bologna,
        City::Bolzano,
        City::Bonn,
        City::Bordeaux,
        City::Bratislava,
        City::Brasov,
        City::Bremen,
        City::Brescia,
        City::Brest,
        City::Brighton,
        City::Brindisi,
        City::Bristol,
        City::Brno,
        City::Bruges,
        City::Brussels,
        City::Bucharest,
        City::Budapest,
        City::Burgas,
        City::Burgos,
        City::Calais,
        City::Cambridge,
        City::Cardiff,
        City::Cartagena,
        City::Catania,
        City::Chambery,
        City::ClermontFerrand,
        City::ClujNapoca,
        City::Cologne,
        City::Como,
        City::Copenhagen,
        City::Cork,
        City::Cuenca,
        City::Cadiz,
        City::Cordoba,
        City::Debrecen,
        City::Derby,
        City::Dijon,
        City::Dortmund,
        City::Drammen,
        City::Dresden,
        City::Dublin,
        City::Dusseldorf,
        City::Edinburgh,
        City::Eindhoven,
        City::Essen,
        City::Exeter,
        City::Ferrara,
        City::Florence,
        City::Forli,
        City::Frankfurt,
        City::Galway,
        City::Gdansk,
        City::Gdynia,
        City::Geneva,
        City::Genoa,
        City::Ghent,
        City::Glasgow,
        City::Gothenburg,
        City::Granada,
        City::Graz,
        City::Grenoble,
        City::Hamburg,
        City::Hannover,
        City::Heidelberg,
        City::Helsingborg,
        City::Helsinki,
        City::Iasi,
        City::Innsbruck,
        City::Karlsruhe,
        City::Katowice,
        City::Kiel,
        City::Kosice,
        City::Krakow,
        City::LAquila,
        City::LaRochelle,
        City::LaSpezia,
        City::Lausanne,
        City::LeMans,
        City::Leeds,
        City::Leicester,
        City::Leipzig,
        City::Lille,
        City::Limerick,
        City::Limoges,
        City::Linkoping,
        City::Linz,
        City::Lisbon,
        City::Liverpool,
        City::Livorno,
        City::Liege,
        City::Ljubljana,
        City::Logrono,
        City::London,
        City::Lublin,
        City::Lucerne,
        City::Lugano,
        City::Lund,
        City::Lyon,
        City::Madrid,
        City::Malmo,
        City::Manchester,
        City::Mannheim,
        City::Maribor,
        City::Marseille,
        City::Messina,
        City::Metz,
        City::Milan,
        City::Modena,
        City::Montpellier,
        City::Mostar,
        City::Mulhouse,
        City::Munich,
        City::Murcia,
        City::Malaga,
        City::Nancy,
        City::Nantes,
        City::Naples,
        City::Narbonne,
        City::Newcastle,
        City::Nice,
        City::Nis,
        City::Norrkoping,
        City::Nottingham,
        City::NoviSad,
        City::Nuremberg,
        City::Nimes,
        City::Odense,
        City::Oslo,
        City::Ostrava,
        City::Oulu,
        City::Oviedo,
        City::Oxford,
        City::Padua,
        City::Palermo,
        City::Pamplona,
        City::Paris,
        City::Parma,
        City::Perpignan,
        City::Perugia,
        City::Piacenza,
        City::Pisa,
        City::Plovdiv,
        City::Plymouth,
        City::Plzen,
        City::Poitiers,
        City::Porto,
        City::Portsmouth,
        City::Potsdam,
        City::Poznan,
        City::Prague,
        City::Pecs,
        City::Ravenna,
        City::Reading,
        City::Regensburg,
        City::ReggioCalabria,
        City::ReggioEmilia,
        City::Reims,
        City::Rennes,
        City::Rijeka,
        City::Rimini,
        City::Rome,
        City::Rostock,
        City::Rotterdam,
        City::Rouen,
        City::Salamanca,
        City::Salerno,
        City::Salzburg,
        City::SanSebastian,
        City::Santander,
        City::SantiagoDeCompostela,
        City::Sarajevo,
        City::Seville,
        City::Sheffield,
        City::Sofia,
        City::Sopot,
        City::Southampton,
        City::Split,
        City::StGallen,
        City::Stavanger,
        City::Stockholm,
        City::Strasbourg,
        City::Stuttgart,
        City::Swansea,
        City::Szeged,
        City::Tampere,
        City::Taranto,
        City::Terni,
        City::TheHague,
        City::Thessaloniki,
        City::Timisoara,
        City::Toledo,
        City::Toulouse,
        City::Tours,
        City::Trento,
        City::Trieste,
        City::Trondheim,
        City::Turin,
        City::Turku,
        City::Uppsala,
        City::Utrecht,
        City::Valencia,
        City::Valladolid,
        City::Varna,
        City::Venice,
        City::Verona,
        City::Versailles,
        City::Vicenza,
        City::Vienna,
        City::Vigo,
        City::Vasteras,
        City::Warsaw,
        City::Waterford,
        City::Wroclaw,
        City::Wurzburg,
        City::York,
        City::Zagreb,
        City::Zaragoza,
        City::Zurich,
        City::Orebro,
        City::CeskeBudejovice,
        City::Lodz,
    ]
}


impl City {
    /// The display name of the city.
    pub fn as_str(&self) -> (s: &'static str)
        ensures
            s@ == city_name(*self),
    {
        match self {
            City::ACoruna => "A Coruña",
            City::Aalborg => "Aalborg",
            City::Aarhus => "Aarhus",
            City::Alicante => "Alicante",
            City::Almeria => "Almería",
            City::Amiens => "Amiens",
            City::Amsterdam => "Amsterdam",
            City::Ancona => "Ancona",
            City::Angers => "Angers",
            City::Annecy => "Annecy",
            City::Antwerp => "Antwerp",
            City::Arezzo => "Arezzo",
            City::Ashford => "Ashford",
            City::Augsburg => "Augsburg",
            City::Avignon => "Avignon",
            City::Badajoz => "Badajoz",
            City::Barcelona => "Barcelona",
            City::Bari => "Bari",
            City::Basel => "Basel",
            City::Belgrade => "Belgrade",
            City::Bergamo => "Bergamo",
            City::Bergen => "Bergen",
            City::Berlin => "Berlin",
            City::Bern => "Bern",
            City::Besancon => "Besançon",
            City::Bilbao => "Bilbao",
            City::Birmingham => "Birmingham",
            City::Bochum => "Bochum",
            City::Bologna => "Bologna",
            City::Bolzano => "Bolzano",
            City::Bonn => "Bonn",
            City::Bordeaux => "Bordeaux",
            City::Bratislava => "Bratislava",
            City::Brasov => "Brașov",
            City::Bremen => "Bremen",
            City::Brescia => "Brescia",
            City::Brest => "Brest",
            City::Brighton => "Brighton",
            City::Brindisi => "Brindisi",
            City::Bristol => "Bristol",
            City::Brno => "Brno",
            City::Bruges => "Bruges",
            City::Brussels => "Brussels",
            City::Bucharest => "Bucharest",
            City::Budapest => "Budapest",
            City::Burgas => "Burgas",
            City::Burgos => "Burgos",
            City::Calais => "Calais",
            City::Cambridge => "Cambridge",
            City::Cardiff => "Cardiff",
            City::Cartagena => "Cartagena",
            City::Catania => "Catania",
            City::Chambery => "Chambéry",
            City::ClermontFerrand => "Clermont-Ferrand",
            City::ClujNapoca => "Cluj-Napoca",
            City::Cologne => "Cologne",
            City::Como => "Como",
            City::Copenhagen => "Copenhagen",
            City::Cork => "Cork",
            City::Cuenca => "Cuenca",
            City::Cadiz => "Cádiz",
            City::Cordoba => "Córdoba",
            City::Debrecen => "Debrecen",
            City::Derby => "Derby",
            City::Dijon => "Dijon",
            City::Dortmund => "Dortmund",
            City::Drammen => "Drammen",
            City::Dresden => "Dresden",
            City::Dublin => "Dublin",
            City::Dusseldorf => "Düsseldorf",
            City::Edinburgh => "Edinburgh",
            City::Eindhoven => "Eindhoven",
            City::Essen => "Essen",
            City::Exeter => "Exeter",
            City::Ferrara => "Ferrara",
            City::Florence => "Florence",
            City::Forli => "Forlì",
            City::Frankfurt => "Frankfurt",
            City::Galway => "Galway",
            City::Gdansk => "Gdańsk",
            City::Gdynia => "Gdynia",
            City::Geneva => "Geneva",
            City::Genoa => "Genoa",
            City::Ghent => "Ghent",
            City::Glasgow => "Glasgow",
            City::Gothenburg => "Gothenburg",
            City::Granada => "Granada",
            City::Graz => "Graz",
            City::Grenoble => "Grenoble",
            City::Hamburg => "Hamburg",
            City::Hannover => "Hannover",
            City::Heidelberg => "Heidelberg",
            City::Helsingborg => "Helsingborg",
            City::Helsinki => "Helsinki",
            City::Iasi => "Iași",
            City::Innsbruck => "Innsbruck",
            City::Karlsruhe => "Karlsruhe",
            City::Katowice => "Katowice",
            City::Kiel => "Kiel",
            City::Kosice => "Košice",
            City::Krakow => "Krakow",
            City::LAquila => "L'Aquila",
            City::LaRochelle => "La Rochelle",
            City::LaSpezia => "La Spezia",
            City::Lausanne => "Lausanne",
            City::LeMans => "Le Mans",
            City::Leeds => "Leeds",
            City::Leicester => "Leicester",
            City::Leipzig => "Leipzig",
            City::Lille => "Lille",
            City::Limerick => "Limerick",
            City::Limoges => "Limoges",
            City::Linkoping => "Linköping",
            City::Linz => "Linz",
            City::Lisbon => "Lisbon",
            City::Liverpool => "Liverpool",
            City::Livorno => "Livorno",
            City::Liege => "Liège",
            City::Ljubljana => "Ljubljana",
            City::Logrono => "Logroño",
            City::London => "London",
            City::Lublin => "Lublin",
            City::Lucerne => "Lucerne",
            City::Lugano => "Lugano",
            City::Lund => "Lund",
            City::Lyon => "Lyon",
            City::Madrid => "Madrid",
            City::Malmo => "Malmö",
            City::Manchester => "Manchester",
            City::Mannheim => "Mannheim",
            City::Maribor => "Maribor",
            City::Marseille => "Marseille",
            City::Messina => "Messina",
            City::Metz => "Metz",
            City::Milan => "Milan",
            City::Modena => "Modena",
            City::Montpellier => "Montpellier",
            City::Mostar => "Mostar",
            City::Mulhouse => "Mulhouse",
            City::Munich => "Munich",
            City::Murcia => "Murcia",
            City::Malaga => "Málaga",
            City::Nancy => "Nancy",
            City::Nantes => "Nantes",
            City::Naples => "Naples",
            City::Narbonne => "Narbonne",
            City::Newcastle => "Newcastle",
            City::Nice => "Nice",
            City::Nis => "Niš",
            City::Norrkoping => "Norrköping",
            City::Nottingham => "Nottingham",
            City::NoviSad => "Novi Sad",
            City::Nuremberg => "Nuremberg",
            City::Nimes => "Nîmes",
            City::Odense => "Odense",
            City::Oslo => "Oslo",
            City::Ostrava => "Ostrava",
            City::Oulu => "Oulu",
            City::Oviedo => "Oviedo",
            City::Oxford => "Oxford",
            City::Padua => "Padua",
            City::Palermo => "Palermo",
            City::Pamplona => "Pamplona",
            City::Paris => "Paris",
            City::Parma => "Parma",
            City::Perpignan => "Perpignan",
            City::Perugia => "Perugia",
            City::Piacenza => "Piacenza",
            City::Pisa => "Pisa",
            City::Plovdiv => "Plovdiv",
            City::Plymouth => "Plymouth",
            City::Plzen => "Plzeň",
            City::Poitiers => "Poitiers",
            City::Porto => "Porto",
            City::Portsmouth => "Portsmouth",
            City::Potsdam => "Potsdam",
            City::Poznan => "Poznań",
            City::Prague => "Prague",
            City::Pecs => "Pécs",
            City::Ravenna => "Ravenna",
            City::Reading => "Reading",
            City::Regensburg => "Regensburg",
            City::ReggioCalabria => "Reggio Calabria",
            City::ReggioEmilia => "Reggio Emilia",
            City::Reims => "Reims",
            City::Rennes => "Rennes",
            City::Rijeka => "Rijeka",
            City::Rimini => "Rimini",
            City::Rome => "Rome",
            City::Rostock => "Rostock",
            City::Rotterdam => "Rotterdam",
            City::Rouen => "Rouen",
            City::Salamanca => "Salamanca",
            City::Salerno => "Salerno",
            City::Salzburg => "Salzburg",
            City::SanSebastian => "San Sebastián",
            City::Santander => "Santander",
            City::SantiagoDeCompostela => "Santiago de Compostela",
            City::Sarajevo => "Sarajevo",
            City::Seville => "Seville",
            City::Sheffield => "Sheffield",
            City::Sofia => "Sofia",
            City::Sopot => "Sopot",
            City::Southampton => "Southampton",
            City::Split => "Split",
            City::StGallen => "St. Gallen",
            City::Stavanger => "Stavanger",
            City::Stockholm => "Stockholm",
            City::Strasbourg => "Strasbourg",
            City::Stuttgart => "Stuttgart",
            City::Swansea => "Swansea",
            City::Szeged => "Szeged",
            City::Tampere => "Tampere",
            City::Taranto => "Taranto",
            City::Terni => "Terni",
            City::TheHague => "The Hague",
            City::Thessaloniki => "Thessaloniki",
            City::Timisoara => "Timișoara",
            City::Toledo => "Toledo",
            City::Toulouse => "Toulouse",
            City::Tours => "Tours",
            City::Trento => "Trento",
            City::Trieste => "Trieste",
            City::Trondheim => "Trondheim",
            City::Turin => "Turin",
            City::Turku => "Turku",
            City::Uppsala => "Uppsala",
            City::Utrecht => "Utrecht",
            City::Valencia => "Valencia",
            City::Valladolid => "Valladolid",
            City::Varna => "Varna",
            City::Venice => "Venice",
            City::Verona => "Verona",
            City::Versailles => "Versailles",
            City::Vicenza => "Vicenza",
            City::Vienna => "Vienna",
            City::Vigo => "Vigo",
            City::Vasteras => "Västerås",
            City::Warsaw => "Warsaw",
            City::Waterford => "Waterford",
            City::Wroclaw => "Wrocław",
            City::Wurzburg => "Würzburg",
            City::York => "York",
            City::Zagreb => "Zagreb",
            City::Zaragoza => "Zaragoza",
            City::Zurich => "Zurich",
            City::Orebro => "Örebro",
            City::CeskeBudejovice => "České Budějovice",
            City::Lodz => "Łódź",
        }
    }

    /// The city whose display name is exactly `s`; the error message names `s` otherwise.
    #[verifier::rlimit(100)]
    pub fn from_str(s: &str) -> (r: Result<City, String>)
        ensures
            match r {
                Ok(c) => city_name(c) == s@,
                Err(e) => (forall|c: City| city_name(c) != s@) && e@ == "Unknown city: "@ + s@,
            },
    {
        if str_equal(s, "A Coruña") {
            return Ok(City::ACoruna);
        }
        if str_equal(s, "Aalborg") {
            return Ok(City::Aalborg);
        }
        if str_equal(s, "Aarhus") {
            return Ok(City::Aarhus);
        }
        if str_equal(s, "Alicante") {
            return Ok(City::Alicante);
        }
        if str_equal(s, "Almería") {
            return Ok(City::Almeria);
        }
        if str_equal(s, "Amiens") {
            return Ok(City::Amiens);
        }
        if str_equal(s, "Amsterdam") {
            return Ok(City::Amsterdam);
        }
        if str_equal(s, "Ancona") {
            return Ok(City::Ancona);
        }
        if str_equal(s, "Angers") {
            return Ok(City::Angers);
        }
        if str_equal(s, "Annecy") {
            return Ok(City::Annecy);
        }
        if str_equal(s, "Antwerp") {
            return Ok(City::Antwerp);
        }
        if str_equal(s, "Arezzo") {
            return Ok(City::Arezzo);
        }
        if str_equal(s, "Ashford") {
            return Ok(City::Ashford);
        }
        if str_equal(s, "Augsburg") {
            return Ok(City::Augsburg);
        }
        if str_equal(s, "Avignon") {
            return Ok(City::Avignon);
        }
        if str_equal(s, "Badajoz") {
            return Ok(City::Badajoz);
        }
        if str_equal(s, "Barcelona") {
            return Ok(City::Barcelona);
        }
        if str_equal(s, "Bari") {
            return Ok(City::Bari);
        }
        if str_equal(s, "Basel") {
            return Ok(City::Basel);
        }
        if str_equal(s, "Belgrade") {
            return Ok(City::Belgrade);
        }
        if str_equal(s, "Bergamo") {
            return Ok(City::Bergamo);
        }
        if str_equal(s, "Bergen") {
            return Ok(City::Bergen);
        }
        if str_equal(s, "Berlin") {
            return Ok(City::Berlin);
        }
        if str_equal(s, "Bern") {
            return Ok(City::Bern);
        }
        if str_equal(s, "Besançon") {
            return Ok(City::Besancon);
        }
        if str_equal(s, "Bilbao") {
            return Ok(City::Bilbao);
        }
        if str_equal(s, "Birmingham") {
            return Ok(City::Birmingham);
        }
        if str_equal(s, "Bochum") {
            return Ok(City::Bochum);
        }
        if str_equal(s, "Bologna") {
            return Ok(City::Bologna);
        }
        if str_equal(s, "Bolzano") {
            return Ok(City::Bolzano);
        }
        if str_equal(s, "Bonn") {
            return Ok(City::Bonn);
        }
        if str_equal(s, "Bordeaux") {
            return Ok(City::Bordeaux);
        }
        if str_equal(s, "Bratislava") {
            return Ok(City::Bratislava);
        }
        if str_equal(s, "Brașov") {
            return Ok(City::Brasov);
        }
        if str_equal(s, "Bremen") {
            return Ok(City::Bremen);
        }
        if str_equal(s, "Brescia") {
            return Ok(City::Brescia);
        }
        if str_equal(s, "Brest") {
            return Ok(City::Brest);
        }
        if str_equal(s, "Brighton") {
            return Ok(City::Brighton);
        }
        if str_equal(s, "Brindisi") {
            return Ok(City::Brindisi);
        }
        if str_equal(s, "Bristol") {
            return Ok(City::Bristol);
        }
        if str_equal(s, "Brno") {
            return Ok(City::Brno);
        }
        if str_equal(s, "Bruges") {
            return Ok(City::Bruges);
        }
        if str_equal(s, "Brussels") {
            return Ok(City::Brussels);
        }
        if str_equal(s, "Bucharest") {
            return Ok(City::Bucharest);
        }
        if str_equal(s, "Budapest") {
            return Ok(City::Budapest);
        }
        if str_equal(s, "Burgas") {
            return Ok(City::Burgas);
        }
        if str_equal(s, "Burgos") {
            return Ok(City::Burgos);
        }
        if str_equal(s, "Calais") {
            return Ok(City::Calais);
        }
        if str_equal(s, "Cambridge") {
            return Ok(City::Cambridge);
        }
        if str_equal(s, "Cardiff") {
            return Ok(City::Cardiff);
        }
        if str_equal(s, "Cartagena") {
            return Ok(City::Cartagena);
        }
        if str_equal(s, "Catania") {
            return Ok(City::Catania);
        }
        if str_equal(s, "Chambéry") {
            return Ok(City::Chambery);
        }
        if str_equal(s, "Clermont-Ferrand") {
            return Ok(City::ClermontFerrand);
        }
        if str_equal(s, "Cluj-Napoca") {
            return Ok(City::ClujNapoca);
        }
        if str_equal(s, "Cologne") {
            return Ok(City::Cologne);
        }
        if str_equal(s, "Como") {
            return Ok(City::Como);
        }
        if str_equal(s, "Copenhagen") {
            return Ok(City::Copenhagen);
        }
        if str_equal(s, "Cork") {
            return Ok(City::Cork);
        }
        if str_equal(s, "Cuenca") {
            return Ok(City::Cuenca);
        }
        if str_equal(s, "Cádiz") {
            return Ok(City::Cadiz);
        }
        if str_equal(s, "Córdoba") {
            return Ok(City::Cordoba);
        }
        if str_equal(s, "Debrecen") {
            return Ok(City::Debrecen);
        }
        if str_equal(s, "Derby") {
            return Ok(City::Derby);
        }
        if str_equal(s, "Dijon") {
            return Ok(City::Dijon);
        }
        if str_equal(s, "Dortmund") {
            return Ok(City::Dortmund);
        }
        if str_equal(s, "Drammen") {
            return Ok(City::Drammen);
        }
        if str_equal(s, "Dresden") {
            return Ok(City::Dresden);
        }
        if str_equal(s, "Dublin") {
            return Ok(City::Dublin);
        }
        if str_equal(s, "Düsseldorf") {
            return Ok(City::Dusseldorf);
        }
        if str_equal(s, "Edinburgh") {
            return Ok(City::Edinburgh);
        }
        if str_equal(s, "Eindhoven") {
            return Ok(City::Eindhoven);
        }
        if str_equal(s, "Essen") {
            return Ok(City::Essen);
        }
        if str_equal(s, "Exeter") {
            return Ok(City::Exeter);
        }
        if str_equal(s, "Ferrara") {
            return Ok(City::Ferrara);
        }
        if str_equal(s, "Florence") {
            return Ok(City::Florence);
        }
        if str_equal(s, "Forlì") {
            return Ok(City::Forli);
        }
        if str_equal(s, "Frankfurt") {
            return Ok(City::Frankfurt);
        }
        if str_equal(s, "Galway") {
            return Ok(City::Galway);
        }
        if str_equal(s, "Gdańsk") {
            return Ok(City::Gdansk);
        }
        if str_equal(s, "Gdynia") {
            return Ok(City::Gdynia);
        }
        if str_equal(s, "Geneva") {
            return Ok(City::Geneva);
        }
        if str_equal(s, "Genoa") {
            return Ok(City::Genoa);
        }
        if str_equal(s, "Ghent") {
            return Ok(City::Ghent);
        }
        if str_equal(s, "Glasgow") {
            return Ok(City::Glasgow);
        }
        if str_equal(s, "Gothenburg") {
            return Ok(City::Gothenburg);
        }
        if str_equal(s, "Granada") {
            return Ok(City::Granada);
        }
        if str_equal(s, "Graz") {
            return Ok(City::Graz);
        }
        if str_equal(s, "Grenoble") {
            return Ok(City::Grenoble);
        }
        if str_equal(s, "Hamburg") {
            return Ok(City::Hamburg);
        }
        if str_equal(s, "Hannover") {
            return Ok(City::Hannover);
        }
        if str_equal(s, "Heidelberg") {
            return Ok(City::Heidelberg);
        }
        if str_equal(s, "Helsingborg") {
            return Ok(City::Helsingborg);
        }
        if str_equal(s, "Helsinki") {
            return Ok(City::Helsinki);
        }
        if str_equal(s, "Iași") {
            return Ok(City::Iasi);
        }
        if str_equal(s, "Innsbruck") {
            return Ok(City::Innsbruck);
        }
        if str_equal(s, "Karlsruhe") {
            return Ok(City::Karlsruhe);
        }
        if str_equal(s, "Katowice") {
            return Ok(City::Katowice);
        }
        if str_equal(s, "Kiel") {
            return Ok(City::Kiel);
        }
        if str_equal(s, "Košice") {
            return Ok(City::Kosice);
        }
        if str_equal(s, "Krakow") {
            return Ok(City::Krakow);
        }
        if str_equal(s, "L'Aquila") {
            return Ok(City::LAquila);
        }
        if str_equal(s, "La Rochelle") {
            return Ok(City::LaRochelle);
        }
        if str_equal(s, "La Spezia") {
            return Ok(City::LaSpezia);
        }
        if str_equal(s, "Lausanne") {
            return Ok(City::Lausanne);
        }
        if str_equal(s, "Le Mans") {
            return Ok(City::LeMans);
        }
        if str_equal(s, "Leeds") {
            return Ok(City::Leeds);
        }
        if str_equal(s, "Leicester") {
            return Ok(City::Leicester);
        }
        if str_equal(s, "Leipzig") {
            return Ok(City::Leipzig);
        }
        if str_equal(s, "Lille") {
            return Ok(City::Lille);
        }
        if str_equal(s, "Limerick") {
            return Ok(City::Limerick);
        }
        if str_equal(s, "Limoges") {
            return Ok(City::Limoges);
        }
        if str_equal(s, "Linköping") {
            return Ok(City::Linkoping);
        }
        if str_equal(s, "Linz") {
            return Ok(City::Linz);
        }
        if str_equal(s, "Lisbon") {
            return Ok(City::Lisbon);
        }
        if str_equal(s, "Liverpool") {
            return Ok(City::Liverpool);
        }
        if str_equal(s, "Livorno") {
            return Ok(City::Livorno);
        }
        if str_equal(s, "Liège") {
            return Ok(City::Liege);
        }
        if str_equal(s, "Ljubljana") {
            return Ok(City::Ljubljana);
        }
        if str_equal(s, "Logroño") {
            return Ok(City::Logrono);
        }
        if str_equal(s, "London") {
            return Ok(City::London);
        }
        if str_equal(s, "Lublin") {
            return Ok(City::Lublin);
        }
        if str_equal(s, "Lucerne") {
            return Ok(City::Lucerne);
        }
        if str_equal(s, "Lugano") {
            return Ok(City::Lugano);
        }
        if str_equal(s, "Lund") {
            return Ok(City::Lund);
        }
        if str_equal(s, "Lyon") {
            return Ok(City::Lyon);
        }
        if str_equal(s, "Madrid") {
            return Ok(City::Madrid);
        }
        if str_equal(s, "Malmö") {
            return Ok(City::Malmo);
        }
        if str_equal(s, "Manchester") {
            return Ok(City::Manchester);
        }
        if str_equal(s, "Mannheim") {
            return Ok(City::Mannheim);
        }
        if str_equal(s, "Maribor") {
            return Ok(City::Maribor);
        }
        if str_equal(s, "Marseille") {
            return Ok(City::Marseille);
        }
        if str_equal(s, "Messina") {
            return Ok(City::Messina);
        }
        if str_equal(s, "Metz") {
            return Ok(City::Metz);
        }
        if str_equal(s, "Milan") {
            return Ok(City::Milan);
        }
        if str_equal(s, "Modena") {
            return Ok(City::Modena);
        }
        if str_equal(s, "Montpellier") {
            return Ok(City::Montpellier);
        }
        if str_equal(s, "Mostar") {
            return Ok(City::Mostar);
        }
        if str_equal(s, "Mulhouse") {
            return Ok(City::Mulhouse);
        }
        if str_equal(s, "Munich") {
            return Ok(City::Munich);
        }
        if str_equal(s, "Murcia") {
            return Ok(City::Murcia);
        }
        if str_equal(s, "Málaga") {
            return Ok(City::Malaga);
        }
        if str_equal(s, "Nancy") {
            return Ok(City::Nancy);
        }
        if str_equal(s, "Nantes") {
            return Ok(City::Nantes);
        }
        if str_equal(s, "Naples") {
            return Ok(City::Naples);
        }
        if str_equal(s, "Narbonne") {
            return Ok(City::Narbonne);
        }
        if str_equal(s, "Newcastle") {
            return Ok(City::Newcastle);
        }
        if str_equal(s, "Nice") {
            return Ok(City::Nice);
        }
        if str_equal(s, "Niš") {
            return Ok(City::Nis);
        }
        if str_equal(s, "Norrköping") {
            return Ok(City::Norrkoping);
        }
        if str_equal(s, "Nottingham") {
            return Ok(City::Nottingham);
        }
        if str_equal(s, "Novi Sad") {
            return Ok(City::NoviSad);
        }
        if str_equal(s, "Nuremberg") {
            return Ok(City::Nuremberg);
        }
        if str_equal(s, "Nîmes") {
            return Ok(City::Nimes);
        }
        if str_equal(s, "Odense") {
            return Ok(City::Odense);
        }
        if str_equal(s, "Oslo") {
            return Ok(City::Oslo);
        }
        if str_equal(s, "Ostrava") {
            return Ok(City::Ostrava);
        }
        if str_equal(s, "Oulu") {
            return Ok(City::Oulu);
        }
        if str_equal(s, "Oviedo") {
            return Ok(City::Oviedo);
        }
        if str_equal(s, "Oxford") {
            return Ok(City::Oxford);
        }
        if str_equal(s, "Padua") {
            return Ok(City::Padua);
        }
        if str_equal(s, "Palermo") {
            return Ok(City::Palermo);
        }
        if str_equal(s, "Pamplona") {
            return Ok(City::Pamplona);
        }
        if str_equal(s, "Paris") {
            return Ok(City::Paris);
        }
        if str_equal(s, "Parma") {
            return Ok(City::Parma);
        }
        if str_equal(s, "Perpignan") {
            return Ok(City::Perpignan);
        }
        if str_equal(s, "Perugia") {
            return Ok(City::Perugia);
        }
        if str_equal(s, "Piacenza") {
            return Ok(City::Piacenza);
        }
        if str_equal(s, "Pisa") {
            return Ok(City::Pisa);
        }
        if str_equal(s, "Plovdiv") {
            return Ok(City::Plovdiv);
        }
        if str_equal(s, "Plymouth") {
            return Ok(City::Plymouth);
        }
        if str_equal(s, "Plzeň") {
            return Ok(City::Plzen);
        }
        if str_equal(s, "Poitiers") {
            return Ok(City::Poitiers);
        }
        if str_equal(s, "Porto") {
            return Ok(City::Porto);
        }
        if str_equal(s, "Portsmouth") {
            return Ok(City::Portsmouth);
        }
        if str_equal(s, "Potsdam") {
            return Ok(City::Potsdam);
        }
        if str_equal(s, "Poznań") {
            return Ok(City::Poznan);
        }
        if str_equal(s, "Prague") {
            return Ok(City::Prague);
        }
        if str_equal(s, "Pécs") {
            return Ok(City::Pecs);
        }
        if str_equal(s, "Ravenna") {
            return Ok(City::Ravenna);
        }
        if str_equal(s, "Reading") {
            return Ok(City::Reading);
        }
        if str_equal(s, "Regensburg") {
            return Ok(City::Regensburg);
        }
        if str_equal(s, "Reggio Calabria") {
            return Ok(City::ReggioCalabria);
        }
        if str_equal(s, "Reggio Emilia") {
            return Ok(City::ReggioEmilia);
        }
        if str_equal(s, "Reims") {
            return Ok(City::Reims);
        }
        if str_equal(s, "Rennes") {
            return Ok(City::Rennes);
        }
        if str_equal(s, "Rijeka") {
            return Ok(City::Rijeka);
        }
        if str_equal(s, "Rimini") {
            return Ok(City::Rimini);
        }
        if str_equal(s, "Rome") {
            return Ok(City::Rome);
        }
        if str_equal(s, "Rostock") {
            return Ok(City::Rostock);
        }
        if str_equal(s, "Rotterdam") {
            return Ok(City::Rotterdam);
        }
        if str_equal(s, "Rouen") {
            return Ok(City::Rouen);
        }
        if str_equal(s, "Salamanca") {
            return Ok(City::Salamanca);
        }
        if str_equal(s, "Salerno") {
            return Ok(City::Salerno);
        }
        if str_equal(s, "Salzburg") {
            return Ok(City::Salzburg);
        }
        if str_equal(s, "San Sebastián") {
            return Ok(City::SanSebastian);
        }
        if str_equal(s, "Santander") {
            return Ok(City::Santander);
        }
        if str_equal(s, "Santiago de Compostela") {
            return Ok(City::SantiagoDeCompostela);
        }
        if str_equal(s, "Sarajevo") {
            return Ok(City::Sarajevo);
        }
        if str_equal(s, "Seville") {
            return Ok(City::Seville);
        }
        if str_equal(s, "Sheffield") {
            return Ok(City::Sheffield);
        }
        if str_equal(s, "Sofia") {
            return Ok(City::Sofia);
        }
        if str_equal(s, "Sopot") {
            return Ok(City::Sopot);
        }
        if str_equal(s, "Southampton") {
            return Ok(City::Southampton);
        }
        if str_equal(s, "Split") {
            return Ok(City::Split);
        }
        if str_equal(s, "St. Gallen") {
            return Ok(City::StGallen);
        }
        if str_equal(s, "Stavanger") {
            return Ok(City::Stavanger);
        }
        if str_equal(s, "Stockholm") {
            return Ok(City::Stockholm);
        }
        if str_equal(s, "Strasbourg") {
            return Ok(City::Strasbourg);
        }
        if str_equal(s, "Stuttgart") {
            return Ok(City::Stuttgart);
        }
        if str_equal(s, "Swansea") {
            return Ok(City::Swansea);
        }
        if str_equal(s, "Szeged") {
            return Ok(City::Szeged);
        }
        if str_equal(s, "Tampere") {
            return Ok(City::Tampere);
        }
        if str_equal(s, "Taranto") {
            return Ok(City::Taranto);
        }
        if str_equal(s, "Terni") {
            return Ok(City::Terni);
        }
        if str_equal(s, "The Hague") {
            return Ok(City::TheHague);
        }
        if str_equal(s, "Thessaloniki") {
            return Ok(City::Thessaloniki);
        }
        if str_equal(s, "Timișoara") {
            return Ok(City::Timisoara);
        }
        if str_equal(s, "Toledo") {
            return Ok(City::Toledo);
        }
        if str_equal(s, "Toulouse") {
            return Ok(City::Toulouse);
        }
        if str_equal(s, "Tours") {
            return Ok(City::Tours);
        }
        if str_equal(s, "Trento") {
            return Ok(City::Trento);
        }
        if str_equal(s, "Trieste") {
            return Ok(City::Trieste);
        }
        if str_equal(s, "Trondheim") {
            return Ok(City::Trondheim);
        }
        if str_equal(s, "Turin") {
            return Ok(City::Turin);
        }
        if str_equal(s, "Turku") {
            return Ok(City::Turku);
        }
        if str_equal(s, "Uppsala") {
            return Ok(City::Uppsala);
        }
        if str_equal(s, "Utrecht") {
            return Ok(City::Utrecht);
        }
        if str_equal(s, "Valencia") {
            return Ok(City::Valencia);
        }
        if str_equal(s, "Valladolid") {
            return Ok(City::Valladolid);
        }
        if str_equal(s, "Varna") {
            return Ok(City::Varna);
        }
        if str_equal(s, "Venice") {
            return Ok(City::Venice);
        }
        if str_equal(s, "Verona") {
            return Ok(City::Verona);
        }
        if str_equal(s, "Versailles") {
            return Ok(City::Versailles);
        }
        if str_equal(s, "Vicenza") {
            return Ok(City::Vicenza);
        }
        if str_equal(s, "Vienna") {
            return Ok(City::Vienna);
        }
        if str_equal(s, "Vigo") {
            return Ok(City::Vigo);
        }
        if str_equal(s, "Västerås") {
            return Ok(City::Vasteras);
        }
        if str_equal(s, "Warsaw") {
            return Ok(City::Warsaw);
        }
        if str_equal(s, "Waterford") {
            return Ok(City::Waterford);
        }
        if str_equal(s, "Wrocław") {
            return Ok(City::Wroclaw);
        }
        if str_equal(s, "Würzburg") {
            return Ok(City::Wurzburg);
        }
        if str_equal(s, "York") {
            return Ok(City::York);
        }
        if str_equal(s, "Zagreb") {
            return Ok(City::Zagreb);
        }
        if str_equal(s, "Zaragoza") {
            return Ok(City::Zaragoza);
        }
        if str_equal(s, "Zurich") {
            return Ok(City::Zurich);
        }
        if str_equal(s, "Örebro") {
            return Ok(City::Orebro);
        }
        if str_equal(s, "České Budějovice") {
            return Ok(City::CeskeBudejovice);
        }
        if str_equal(s, "Łódź") {
            return Ok(City::Lodz);
        }
        let mut e = String::new();
        e.append("Unknown city: ");
        e.append(s);
        Err(e)
    }
}

/// The display names of all cities, in catalogue order.
pub fn get_all_city_names() -> (r: Vec<&'static str>)
    ensures
        r@.len() == city_list().len(),
        forall|i: int| 0 <= i < r@.len() ==> (#[trigger] r@[i])@ == city_name(city_list()[i]),
        forall|c: City| 0 <= #[trigger] city_index(c) < r@.len() && r@[city_index(c)]@ == city_name(c),
        forall|i: int, j: int| 0 <= i < j < r@.len() ==> (#[trigger] r@[i])@ != (#[trigger] r@[j])@,
{
    let all: Vec<City> = vec![
        City::ACoruna,
        City::Aalborg,
        City::Aarhus,
        City::Alicante,
        City::Almeria,
        City::Amiens,
        City::Amsterdam,
        City::Ancona,
        City::Angers,
        City::Annecy,
        City::Antwerp,
        City::Arezzo,
        City::Ashford,
        City::Augsburg,
        City::Avignon,
        City::Badajoz,
        City::Barcelona,
        City::Bari,
        City::Basel,
        City::Belgrade,
        City::Bergamo,
        City::Bergen,
        City::Berlin,
        City::Bern,
        City::Besancon,
        City::Bilbao,
        City::Birmingham,
        City::Bochum,
        City::Bologna,
        City::Bolzano,
        City::Bonn,
        City::Bordeaux,
        City::Bratislava,
        City::Brasov,
        City::Bremen,
        City::Brescia,
        City::Brest,
        City::Brighton,
        City::Brindisi,
        City::Bristol,
        City::Brno,
        City::Bruges,
        City::Brussels,
        City::Bucharest,
        City::Budapest,
        City::Burgas,
        City::Burgos,
        City::Calais,
        City::Cambridge,
        City::Cardiff,
        City::Cartagena,
        City::Catania,
        City::Chambery,
        City::ClermontFerrand,
        City::ClujNapoca,
        City::Cologne,
        City::Como,
        City::Copenhagen,
        City::Cork,
        City::Cuenca,
        City::Cadiz,
        City::Cordoba,
        City::Debrecen,
        City::Derby,
        City::Dijon,
        City::Dortmund,
        City::Drammen,
        City::Dresden,
        City::Dublin,
        City::Dusseldorf,
        City::Edinburgh,
        City::Eindhoven,
        City::Essen,
        City::Exeter,
        City::Ferrara,
        City::Florence,
        City::Forli,
        City::Frankfurt,
        City::Galway,
        City::Gdansk,
        City::Gdynia,
        City::Geneva,
        City::Genoa,
        City::Ghent,
        City::Glasgow,
        City::Gothenburg,
        City::Granada,
        City::Graz,
        City::Grenoble,
        City::Hamburg,
        City::Hannover,
        City::Heidelberg,
        City::Helsingborg,
        City::Helsinki,
        City::Iasi,
        City::Innsbruck,
        City::Karlsruhe,
        City::Katowice,
        City::Kiel,
        City::Kosice,
        City::Krakow,
        City::LAquila,
        City::LaRochelle,
        City::LaSpezia,
        City::Lausanne,
        City::LeMans,
        City::Leeds,
        City::Leicester,
        City::Leipzig,
        City::Lille,
        City::Limerick,
        City::Limoges,
        City::Linkoping,
        City::Linz,
        City::Lisbon,
        City::Liverpool,
        City::Livorno,
        City::Liege,
        City::Ljubljana,
        City::Logrono,
        City::London,
        City::Lublin,
        City::Lucerne,
        City::Lugano,
        City::Lund,
        City::Lyon,
        City::Madrid,
        City::Malmo,
        City::Manchester,
        City::Mannheim,
        City::Maribor,
        City::Marseille,
        City::Messina,
        City::Metz,
        City::Milan,
        City::Modena,
        City::Montpellier,
        City::Mostar,
        City::Mulhouse,
        City::Munich,
        City::Murcia,
        City::Malaga,
        City::Nancy,
        City::Nantes,
        City::Naples,
        City::Narbonne,
        City::Newcastle,
        City::Nice,
        City::Nis,
        City::Norrkoping,
        City::Nottingham,
        City::NoviSad,
        City::Nuremberg,
        City::Nimes,
        City::Odense,
        City::Oslo,
        City::Ostrava,
        City::Oulu,
        City::Oviedo,
        City::Oxford,
        City::Padua,
        City::Palermo,
        City::Pamplona,
        City::Paris,
        City::Parma,
        City::Perpignan,
        City::Perugia,
        City::Piacenza,
        City::Pisa,
        City::Plovdiv,
        City::Plymouth,
        City::Plzen,
        City::Poitiers,
        City::Porto,
        City::Portsmouth,
        City::Potsdam,
        City::Poznan,
        City::Prague,
        City::Pecs,
        City::Ravenna,
        City::Reading,
        City::Regensburg,
        City::ReggioCalabria,
        City::ReggioEmilia,
        City::Reims,
        City::Rennes,
        City::Rijeka,
        City::Rimini,
        City::Rome,
        City::Rostock,
        City::Rotterdam,
        City::Rouen,
        City::Salamanca,
        City::Salerno,
        City::Salzburg,
        City::SanSebastian,
        City::Santander,
        City::SantiagoDeCompostela,
        City::Sarajevo,
        City::Seville,
        City::Sheffield,
        City::Sofia,
        City::Sopot,
        City::Southampton,
        City::Split,
        City::StGallen,
        City::Stavanger,
        City::Stockholm,
        City::Strasbourg,
        City::Stuttgart,
        City::Swansea,
        City::Szeged,
        City::Tampere,
        City::Taranto,
        City::Terni,
        City::TheHague,
        City::Thessaloniki,
        City::Timisoara,
        City::Toledo,
        City::Toulouse,
        City::Tours,
        City::Trento,
        City::Trieste,
        City::Trondheim,
        City::Turin,
        City::Turku,
        City::Uppsala,
        City::Utrecht,
        City::Valencia,
        City::Valladolid,
        City::Varna,
        City::Venice,
        City::Verona,
        City::Versailles,
        City::Vicenza,
        City::Vienna,
        City::Vigo,
        City::Vasteras,
        City::Warsaw,
        City::Waterford,
        City::Wroclaw,
        City::Wurzburg,
        City::York,
        City::Zagreb,
        City::Zaragoza,
        City::Zurich,
        City::Orebro,
        City::CeskeBudejovice,
        City::Lodz,
    ];
    assert(all@ =~= city_list());
    let mut r: Vec<&'static str> = Vec::new();
    for i in 0..all.len()
        invariant
            all@ == city_list(),
            r@.len() == i,
            forall|j: int| 0 <= j < i ==> (#[trigger] r@[j])@ == city_name(city_list()[j]),
    {
        r.push(all[i].as_str());
    }
    proof {
        lemma_city_names_listed(r@);
    }
    r
}

} // verus!
verus! {

/// A short fingerprint of a name: its first two characters and the two
/// before its last one. No two city names of the same length share one.
pub open spec fn name_key(s: Seq<char>) -> (char, char, char, char) {
    (s[0], s[1], s[s.len() - 2], s[s.len() - 3])
}

/// The city whose name has the given length and fingerprint.
spec fn city_of_key(len: nat, k: (char, char, char, char)) -> City {
    if len == 3 {
        City::Nis
    } else if len == 4 {
        if k == ('B', 'a', 'r', 'a') {
            City::Bari
        } else if k == ('B', 'e', 'r', 'e') {
            City::Bern
        } else if k == ('B', 'o', 'n', 'o') {
            City::Bonn
        } else if k == ('B', 'r', 'n', 'r') {
            City::Brno
        } else if k == ('C', 'o', 'm', 'o') {
            City::Como
        } else if k == ('C', 'o', 'r', 'o') {
            City::Cork
        } else if k == ('G', 'r', 'a', 'r') {
            City::Graz
        } else if k == ('I', 'a', 'ș', 'a') {
            City::Iasi
        } else if k == ('K', 'i', 'e', 'i') {
            City::Kiel
        } else if k == ('L', 'i', 'n', 'i') {
            City::Linz
        } else if k == ('L', 'u', 'n', 'u') {
            City::Lund
        } else if k == ('L', 'y', 'o', 'y') {
            City::Lyon
        } else if k == ('M', 'e', 't', 'e') {
            City::Metz
        } else if k == ('N', 'i', 'c', 'i') {
            City::Nice
        } else if k == ('O', 's', 'l', 's') {
            City::Oslo
        } else if k == ('O', 'u', 'l', 'u') {
            City::Oulu
        } else if k == ('P', 'i', 's', 'i') {
            City::Pisa
        } else if k == ('P', 'é', 'c', 'é') {
            City::Pecs
        } else if k == ('R', 'o', 'm', 'o') {
            City::Rome
        } else if k == ('V', 'i', 'g', 'i') {
            City::Vigo
        } else if k == ('Y', 'o', 'r', 'o') {
            City::York
        } else {
            City::Lodz
        }
    } else if len == 5 {
        if k == ('B', 'a', 'e', 's') {
            City::Basel
        } else if k == ('B', 'r', 's', 'e') {
            City::Brest
        } else if k == ('C', 'á', 'i', 'd') {
            City::Cadiz
        } else if k == ('D', 'e', 'b', 'r') {
            City::Derby
        } else if k == ('D', 'i', 'o', 'j') {
            City::Dijon
        } else if k == ('E', 's', 'e', 's') {
            City::Essen
        } else if k == ('F', 'o', 'l', 'r') {
            City::Forli
        } else if k == ('G', 'e', 'o', 'n') {
            City::Genoa
        } else if k == ('G', 'h', 'n', 'e') {
            City::Ghent
        } else if k == ('L', 'e', 'd', 'e') {
            City::Leeds
        } else if k == ('L', 'i', 'l', 'l') {
            City::Lille
        } else if k == ('L', 'i', 'g', 'è') {
            City::Liege
        } else if k == ('M', 'a', 'm', 'l') {
            City::Malmo
        } else if k == ('M', 'i', 'a', 'l') {
            City::Milan
        } else if k == ('N', 'a', 'c', 'n') {
            City::Nancy
        } else if k == ('N', 'î', 'e', 'm') {
            City::Nimes
        } else if k == ('P', 'a', 'u', 'd') {
            City::Padua
        } else if k == ('P', 'a', 'i', 'r') {
            City::Paris
        } else if k == ('P', 'a', 'm', 'r') {
            City::Parma
        } else if k == ('P', 'l', 'e', 'z') {
            City::Plzen
        } else if k == ('P', 'o', 't', 'r') {
            City::Porto
        } else if k == ('R', 'e', 'm', 'i') {
            City::Reims
        } else if k == ('R', 'o', 'e', 'u') {
            City::Rouen
        } else if k == ('S', 'o', 'i', 'f') {
            City::Sofia
        } else if k == ('S', 'o', 'o', 'p') {
            City::Sopot
        } else if k == ('S', 'p', 'i', 'l') {
            City::Split
        } else if k == ('T', 'e', 'n', 'r') {
            City::Terni
        } else if k == ('T', 'o', 'r', 'u') {
            City::Tours
        } else if k == ('T', 'u', 'i', 'r') {
            City::Turin
        } else if k == ('T', 'u', 'k', 'r') {
            City::Turku
        } else {
            City::Varna
        }
    } else if len == 6 {
        if k == ('A', 'a', 'u', 'h') {
            City::Aarhus
        } else if k == ('A', 'm', 'n', 'e') {
            City::Amiens
        } else if k == ('A', 'n', 'n', 'o') {
            City::Ancona
        } else if k == ('A', 'n', 'r', 'e') {
            City::Angers
        } else if k == ('A', 'n', 'c', 'e') {
            City::Annecy
        } else if k == ('A', 'r', 'z', 'z') {
            City::Arezzo
        } else if k == ('B', 'e', 'e', 'g') {
            City::Bergen
        } else if k == ('B', 'e', 'i', 'l') {
            City::Berlin
        } else if k == ('B', 'i', 'a', 'b') {
            City::Bilbao
        } else if k == ('B', 'o', 'u', 'h') {
            City::Bochum
        } else if k == ('B', 'r', 'o', 'ș') {
            City::Brasov
        } else if k == ('B', 'r', 'e', 'm') {
            City::Bremen
        } else if k == ('B', 'r', 'e', 'g') {
            City::Bruges
        } else if k == ('B', 'u', 'a', 'g') {
            City::Burgas
        } else if k == ('B', 'u', 'o', 'g') {
            City::Burgos
        } else if k == ('C', 'a', 'i', 'a') {
            City::Calais
        } else if k == ('C', 'u', 'c', 'n') {
            City::Cuenca
        } else if k == ('D', 'u', 'i', 'l') {
            City::Dublin
        } else if k == ('E', 'x', 'e', 't') {
            City::Exeter
        } else if k == ('G', 'a', 'a', 'w') {
            City::Galway
        } else if k == ('G', 'd', 's', 'ń') {
            City::Gdansk
        } else if k == ('G', 'd', 'i', 'n') {
            City::Gdynia
        } else if k == ('G', 'e', 'v', 'e') {
            City::Geneva
        } else if k == ('K', 'o', 'c', 'i') {
            City::Kosice
        } else if k == ('K', 'r', 'o', 'k') {
            City::Krakow
        } else if k == ('L', 'i', 'o', 'b') {
            City::Lisbon
        } else if k == ('L', 'o', 'o', 'd') {
            City::London
        } else if k == ('L', 'u', 'i', 'l') {
            City::Lublin
        } else if k == ('L', 'u', 'n', 'a') {
            City::Lugano
        } else if k == ('M', 'a', 'i', 'r') {
            City::Madrid
        } else if k == ('M', 'o', 'n', 'e') {
            City::Modena
        } else if k == ('M', 'o', 'a', 't') {
            City::Mostar
        } else if k == ('M', 'u', 'c', 'i') {
            City::Munich
        } else if k == ('M', 'u', 'i', 'c') {
            City::Murcia
        } else if k == ('M', 'á', 'g', 'a') {
            City::Malaga
        } else if k == ('N', 'a', 'e', 't') {
            City::Nantes
        } else if k == ('N', 'a', 'e', 'l') {
            City::Naples
        } else if k == ('O', 'd', 's', 'n') {
            City::Odense
        } else if k == ('O', 'v', 'd', 'e') {
            City::Oviedo
        } else if k == ('O', 'x', 'r', 'o') {
            City::Oxford
        } else if k == ('P', 'o', 'a', 'n') {
            City::Poznan
        } else if k == ('P', 'r', 'u', 'g') {
            City::Prague
        } else if k == ('R', 'e', 'e', 'n') {
            City::Rennes
        } else if k == ('R', 'i', 'k', 'e') {
            City::Rijeka
        } else if k == ('R', 'i', 'n', 'i') {
            City::Rimini
        } else if k == ('S', 'z', 'e', 'g') {
            City::Szeged
        } else if k == ('T', 'o', 'd', 'e') {
            City::Toledo
        } else if k == ('T', 'r', 't', 'n') {
            City::Trento
        } else if k == ('V', 'e', 'c', 'i') {
            City::Venice
        } else if k == ('V', 'e', 'n', 'o') {
            City::Verona
        } else if k == ('V', 'i', 'n', 'n') {
            City::Vienna
        } else if k == ('W', 'a', 'a', 's') {
            City::Warsaw
        } else if k == ('Z', 'a', 'e', 'r') {
            City::Zagreb
        } else if k == ('Z', 'u', 'c', 'i') {
            City::Zurich
        } else {
            City::Orebro
        }
    } else if len == 7 {
        if k == ('A', 'a', 'r', 'o') {
            City::Aalborg
        } else if k == ('A', 'l', 'í', 'r') {
            City::Almeria
        } else if k == ('A', 'n', 'r', 'e') {
            City::Antwerp
        } else if k == ('A', 's', 'r', 'o') {
            City::Ashford
        } else if k == ('A', 'v', 'o', 'n') {
            City::Avignon
        } else if k == ('B', 'a', 'o', 'j') {
            City::Badajoz
        } else if k == ('B', 'e', 'm', 'a') {
            City::Bergamo
        } else if k == ('B', 'o', 'n', 'g') {
            City::Bologna
        } else if k == ('B', 'o', 'n', 'a') {
            City::Bolzano
        } else if k == ('B', 'r', 'i', 'c') {
            City::Brescia
        } else if k == ('B', 'r', 'o', 't') {
            City::Bristol
        } else if k == ('C', 'a', 'f', 'i') {
            City::Cardiff
        } else if k == ('C', 'a', 'i', 'n') {
            City::Catania
        } else if k == ('C', 'o', 'n', 'g') {
            City::Cologne
        } else if k == ('C', 'ó', 'b', 'o') {
            City::Cordoba
        } else if k == ('D', 'r', 'e', 'm') {
            City::Drammen
        } else if k == ('D', 'r', 'e', 'd') {
            City::Dresden
        } else if k == ('F', 'e', 'r', 'a') {
            City::Ferrara
        } else if k == ('G', 'l', 'o', 'g') {
            City::Glasgow
        } else if k == ('G', 'r', 'd', 'a') {
            City::Granada
        } else if k == ('H', 'a', 'r', 'u') {
            City::Hamburg
        } else if k == ('L', 'e', 'n', 'a') {
            City::LeMans
        } else if k == ('L', 'e', 'i', 'z') {
            City::Leipzig
        } else if k == ('L', 'i', 'e', 'g') {
            City::Limoges
        } else if k == ('L', 'i', 'n', 'r') {
            City::Livorno
        } else if k == ('L', 'o', 'ñ', 'o') {
            City::Logrono
        } else if k == ('L', 'u', 'n', 'r') {
            City::Lucerne
        } else if k == ('M', 'a', 'o', 'b') {
            City::Maribor
        } else if k == ('M', 'e', 'n', 'i') {
            City::Messina
        } else if k == ('O', 's', 'v', 'a') {
            City::Ostrava
        } else if k == ('P', 'a', 'm', 'r') {
            City::Palermo
        } else if k == ('P', 'e', 'i', 'g') {
            City::Perugia
        } else if k == ('P', 'l', 'i', 'd') {
            City::Plovdiv
        } else if k == ('P', 'o', 'a', 'd') {
            City::Potsdam
        } else if k == ('R', 'a', 'n', 'n') {
            City::Ravenna
        } else if k == ('R', 'e', 'n', 'i') {
            City::Reading
        } else if k == ('R', 'o', 'c', 'o') {
            City::Rostock
        } else if k == ('S', 'a', 'n', 'r') {
            City::Salerno
        } else if k == ('S', 'e', 'l', 'l') {
            City::Seville
        } else if k == ('S', 'w', 'e', 's') {
            City::Swansea
        } else if k == ('T', 'a', 'r', 'e') {
            City::Tampere
        } else if k == ('T', 'a', 't', 'n') {
            City::Taranto
        } else if k == ('T', 'r', 't', 's') {
            City::Trieste
        } else if k == ('U', 'p', 'l', 'a') {
            City::Uppsala
        } else if k == ('U', 't', 'h', 'c') {
            City::Utrecht
        } else if k == ('V', 'i', 'z', 'n') {
            City::Vicenza
        } else {
            City::Wroclaw
        }
    } else if len == 8 {
        if k == ('A', ' ', 'ñ', 'u') {
            City::ACoruna
        } else if k == ('A', 'l', 't', 'n') {
            City::Alicante
        } else if k == ('A', 'u', 'r', 'u') {
            City::Augsburg
        } else if k == ('B', 'e', 'd', 'a') {
            City::Belgrade
        } else if k == ('B', 'e', 'o', 'ç') {
            City::Besancon
        } else if k == ('B', 'o', 'u', 'a') {
            City::Bordeaux
        } else if k == ('B', 'r', 'o', 't') {
            City::Brighton
        } else if k == ('B', 'r', 's', 'i') {
            City::Brindisi
        } else if k == ('B', 'r', 'l', 'e') {
            City::Brussels
        } else if k == ('B', 'u', 's', 'e') {
            City::Budapest
        } else if k == ('C', 'h', 'r', 'é') {
            City::Chambery
        } else if k == ('D', 'e', 'e', 'c') {
            City::Debrecen
        } else if k == ('D', 'o', 'n', 'u') {
            City::Dortmund
        } else if k == ('F', 'l', 'c', 'n') {
            City::Florence
        } else if k == ('G', 'r', 'l', 'b') {
            City::Grenoble
        } else if k == ('H', 'a', 'e', 'v') {
            City::Hannover
        } else if k == ('H', 'e', 'k', 'n') {
            City::Helsinki
        } else if k == ('K', 'a', 'c', 'i') {
            City::Katowice
        } else if k == ('L', '\'', 'l', 'i') {
            City::LAquila
        } else if k == ('L', 'a', 'n', 'n') {
            City::Lausanne
        } else if k == ('L', 'i', 'c', 'i') {
            City::Limerick
        } else if k == ('M', 'a', 'i', 'e') {
            City::Mannheim
        } else if k == ('M', 'u', 's', 'u') {
            City::Mulhouse
        } else if k == ('N', 'a', 'n', 'n') {
            City::Narbonne
        } else if k == ('N', 'o', 'a', 'S') {
            City::NoviSad
        } else if k == ('P', 'a', 'n', 'o') {
            City::Pamplona
        } else if k == ('P', 'i', 'z', 'n') {
            City::Piacenza
        } else if k == ('P', 'l', 't', 'u') {
            City::Plymouth
        } else if k == ('P', 'o', 'r', 'e') {
            City::Poitiers
        } else if k == ('S', 'a', 'r', 'u') {
            City::Salzburg
        } else if k == ('S', 'a', 'v', 'e') {
            City::Sarajevo
        } else if k == ('T', 'o', 's', 'u') {
            City::Toulouse
        } else if k == ('V', 'a', 'i', 'c') {
            City::Valencia
        } else if k == ('V', 'ä', 'å', 'r') {
            City::Vasteras
        } else if k == ('W', 'ü', 'r', 'u') {
            City::Wurzburg
        } else {
            City::Zaragoza
        }
    } else if len == 9 {
        if k == ('A', 'm', 'a', 'd') {
            City::Amsterdam
        } else if k == ('B', 'a', 'n', 'o') {
            City::Barcelona
        } else if k == ('B', 'u', 's', 'e') {
            City::Bucharest
        } else if k == ('C', 'a', 'g', 'd') {
            City::Cambridge
        } else if k == ('C', 'a', 'n', 'e') {
            City::Cartagena
        } else if k == ('E', 'd', 'g', 'r') {
            City::Edinburgh
        } else if k == ('E', 'i', 'e', 'v') {
            City::Eindhoven
        } else if k == ('F', 'r', 'r', 'u') {
            City::Frankfurt
        } else if k == ('I', 'n', 'c', 'u') {
            City::Innsbruck
        } else if k == ('K', 'a', 'h', 'u') {
            City::Karlsruhe
        } else if k == ('L', 'a', 'i', 'z') {
            City::LaSpezia
        } else if k == ('L', 'e', 'e', 't') {
            City::Leicester
        } else if k == ('L', 'i', 'n', 'i') {
            City::Linkoping
        } else if k == ('L', 'i', 'o', 'o') {
            City::Liverpool
        } else if k == ('L', 'j', 'n', 'a') {
            City::Ljubljana
        } else if k == ('M', 'a', 'l', 'l') {
            City::Marseille
        } else if k == ('N', 'e', 'l', 't') {
            City::Newcastle
        } else if k == ('N', 'u', 'r', 'e') {
            City::Nuremberg
        } else if k == ('P', 'e', 'a', 'n') {
            City::Perpignan
        } else if k == ('R', 'o', 'a', 'd') {
            City::Rotterdam
        } else if k == ('S', 'a', 'c', 'n') {
            City::Salamanca
        } else if k == ('S', 'a', 'e', 'd') {
            City::Santander
        } else if k == ('S', 'h', 'l', 'e') {
            City::Sheffield
        } else if k == ('S', 't', 'e', 'g') {
            City::Stavanger
        } else if k == ('S', 't', 'l', 'o') {
            City::Stockholm
        } else if k == ('S', 't', 'r', 'a') {
            City::Stuttgart
        } else if k == ('T', 'h', 'u', 'g') {
            City::TheHague
        } else if k == ('T', 'i', 'r', 'a') {
            City::Timisoara
        } else if k == ('T', 'r', 'i', 'e') {
            City::Trondheim
        } else {
            City::Waterford
        }
    } else if len == 10 {
        if k == ('B', 'i', 'a', 'h') {
            City::Birmingham
        } else if k == ('B', 'r', 'v', 'a') {
            City::Bratislava
        } else if k == ('C', 'o', 'e', 'g') {
            City::Copenhagen
        } else if k == ('D', 'ü', 'r', 'o') {
            City::Dusseldorf
        } else if k == ('G', 'o', 'r', 'u') {
            City::Gothenburg
        } else if k == ('H', 'e', 'r', 'e') {
            City::Heidelberg
        } else if k == ('M', 'a', 'e', 't') {
            City::Manchester
        } else if k == ('N', 'o', 'n', 'i') {
            City::Norrkoping
        } else if k == ('N', 'o', 'a', 'h') {
            City::Nottingham
        } else if k == ('P', 'o', 't', 'u') {
            City::Portsmouth
        } else if k == ('R', 'e', 'r', 'u') {
            City::Regensburg
        } else if k == ('S', 't', 'e', 'l') {
            City::StGallen
        } else if k == ('S', 't', 'r', 'u') {
            City::Strasbourg
        } else if k == ('V', 'a', 'i', 'l') {
            City::Valladolid
        } else {
            City::Versailles
        }
    } else if len == 11 {
        if k == ('C', 'l', 'c', 'o') {
            City::ClujNapoca
        } else if k == ('H', 'e', 'r', 'o') {
            City::Helsingborg
        } else if k == ('L', 'a', 'l', 'l') {
            City::LaRochelle
        } else if k == ('M', 'o', 'e', 'i') {
            City::Montpellier
        } else {
            City::Southampton
        }
    } else if len == 12 {
        City::Thessaloniki
    } else if len == 13 {
        if k == ('R', 'e', 'i', 'l') {
            City::ReggioEmilia
        } else {
            City::SanSebastian
        }
    } else if len == 15 {
        City::ReggioCalabria
    } else if len == 16 {
        if k == ('C', 'l', 'n', 'a') {
            City::ClermontFerrand
        } else {
            City::CeskeBudejovice
        }
    } else if len == 22 {
        City::SantiagoDeCompostela
    } else {
        City::ACoruna
    }
}

#[verifier::spinoff_prover]
proof fn lemma_city_key_0(c: City)
    requires
        c == City::ACoruna || c == City::Aalborg || c == City::Aarhus || c == City::Alicante || c == City::Almeria || c == City::Amiens || c == City::Amsterdam || c == City::Ancona || c == City::Angers || c == City::Annecy || c == City::Antwerp || c == City::Arezzo || c == City::Ashford || c == City::Augsburg || c == City::Avignon || c == City::Badajoz || c == City::Barcelona || c == City::Bari || c == City::Basel || c == City::Belgrade || c == City::Bergamo || c == City::Bergen || c == City::Berlin || c == City::Bern || c == City::Besancon,
    ensures
        city_of_key(city_name(c).len(), name_key(city_name(c))) == c,
{
    match c {
        City::ACoruna => {
            reveal_strlit("A Coruña");
        },
        City::Aalborg => {
            reveal_strlit("Aalborg");
        },
        City::Aarhus => {
            reveal_strlit("Aarhus");
        },
        City::Alicante => {
            reveal_strlit("Alicante");
        },
        City::Almeria => {
            reveal_strlit("Almería");
        },
        City::Amiens => {
            reveal_strlit("Amiens");
        },
        City::Amsterdam => {
            reveal_strlit("Amsterdam");
        },
        City::Ancona => {
            reveal_strlit("Ancona");
        },
        City::Angers => {
            reveal_strlit("Angers");
        },
        City::Annecy => {
            reveal_strlit("Annecy");
        },
        City::Antwerp => {
            reveal_strlit("Antwerp");
        },
        City::Arezzo => {
            reveal_strlit("Arezzo");
        },
        City::Ashford => {
            reveal_strlit("Ashford");
        },
        City::Augsburg => {
            reveal_strlit("Augsburg");
        },
        City::Avignon => {
            reveal_strlit("Avignon");
        },
        City::Badajoz => {
            reveal_strlit("Badajoz");
        },
        City::Barcelona => {
            reveal_strlit("Barcelona");
        },
        City::Bari => {
            reveal_strlit("Bari");
        },
        City::Basel => {
            reveal_strlit("Basel");
        },
        City::Belgrade => {
            reveal_strlit("Belgrade");
        },
        City::Bergamo => {
            reveal_strlit("Bergamo");
        },
        City::Bergen => {
            reveal_strlit("Bergen");
        },
        City::Berlin => {
            reveal_strlit("Berlin");
        },
        City::Bern => {
            reveal_strlit("Bern");
        },
        City::Besancon => {
            reveal_strlit("Besançon");
        },
        _ => {},
    }
}

#[verifier::spinoff_prover]
proof fn lemma_city_key_1(c: City)
    requires
        c == City::Bilbao || c == City::Birmingham || c == City::Bochum || c == City::Bologna || c == City::Bolzano || c == City::Bonn || c == City::Bordeaux || c == City::Bratislava || c == City::Brasov || c == City::Bremen || c == City::Brescia || c == City::Brest || c == City::Brighton || c == City::Brindisi || c == City::Bristol || c == City::Brno || c == City::Bruges || c == City::Brussels || c == City::Bucharest || c == City::Budapest || c == City::Burgas || c == City::Burgos || c == City::Calais || c == City::Cambridge || c == City::Cardiff,
    ensures
        city_of_key(city_name(c).len(), name_key(city_name(c))) == c,
{
    match c {
        City::Bilbao => {
            reveal_strlit("Bilbao");
        },
        City::Birmingham => {
            reveal_strlit("Birmingham");
        },
        City::Bochum => {
            reveal_strlit("Bochum");
        },
        City::Bologna => {
            reveal_strlit("Bologna");
        },
        City::Bolzano => {
            reveal_strlit("Bolzano");
        },
        City::Bonn => {
            reveal_strlit("Bonn");
        },
        City::Bordeaux => {
            reveal_strlit("Bordeaux");
        },
        City::Bratislava => {
            reveal_strlit("Bratislava");
        },
        City::Brasov => {
            reveal_strlit("Brașov");
        },
        City::Bremen => {
            reveal_strlit("Bremen");
        },
        City::Brescia => {
            reveal_strlit("Brescia");
        },
        City::Brest => {
            reveal_strlit("Brest");
        },
        City::Brighton => {
            reveal_strlit("Brighton");
        },
        City::Brindisi => {
            reveal_strlit("Brindisi");
        },
        City::Bristol => {
            reveal_strlit("Bristol");
        },
        City::Brno => {
            reveal_strlit("Brno");
        },
        City::Bruges => {
            reveal_strlit("Bruges");
        },
        City::Brussels => {
            reveal_strlit("Brussels");
        },
        City::Bucharest => {
            reveal_strlit("Bucharest");
        },
        City::Budapest => {
            reveal_strlit("Budapest");
        },
        City::Burgas => {
            reveal_strlit("Burgas");
        },
        City::Burgos => {
            reveal_strlit("Burgos");
        },
        City::Calais => {
            reveal_strlit("Calais");
        },
        City::Cambridge => {
            reveal_strlit("Cambridge");
        },
        City::Cardiff => {
            reveal_strlit("Cardiff");
        },
        _ => {},
    }
}

#[verifier::spinoff_prover]
proof fn lemma_city_key_2(c: City)
    requires
        c == City::Cartagena || c == City::Catania || c == City::Chambery || c == City::ClermontFerrand || c == City::ClujNapoca || c == City::Cologne || c == City::Como || c == City::Copenhagen || c == City::Cork || c == City::Cuenca || c == City::Cadiz || c == City::Cordoba || c == City::Debrecen || c == City::Derby || c == City::Dijon || c == City::Dortmund || c == City::Drammen || c == City::Dresden || c == City::Dublin || c == City::Dusseldorf || c == City::Edinburgh || c == City::Eindhoven || c == City::Essen || c == City::Exeter || c == City::Ferrara,
    ensures
        city_of_key(city_name(c).len(), name_key(city_name(c))) == c,
{
    match c {
        City::Cartagena => {
            reveal_strlit("Cartagena");
        },
        City::Catania => {
            reveal_strlit("Catania");
        },
        City::Chambery => {
            reveal_strlit("Chambéry");
        },
        City::ClermontFerrand => {
            reveal_strlit("Clermont-Ferrand");
        },
        City::ClujNapoca => {
            reveal_strlit("Cluj-Napoca");
        },
        City::Cologne => {
            reveal_strlit("Cologne");
        },
        City::Como => {
            reveal_strlit("Como");
        },
        City::Copenhagen => {
            reveal_strlit("Copenhagen");
        },
        City::Cork => {
            reveal_strlit("Cork");
        },
        City::Cuenca => {
            reveal_strlit("Cuenca");
        },
        City::Cadiz => {
            reveal_strlit("Cádiz");
        },
        City::Cordoba => {
            reveal_strlit("Córdoba");
        },
        City::Debrecen => {
            reveal_strlit("Debrecen");
        },
        City::Derby => {
            reveal_strlit("Derby");
        },
        City::Dijon => {
            reveal_strlit("Dijon");
        },
        City::Dortmund => {
            reveal_strlit("Dortmund");
        },
        City::Drammen => {
            reveal_strlit("Drammen");
        },
        City::Dresden => {
            reveal_strlit("Dresden");
        },
        City::Dublin => {
            reveal_strlit("Dublin");
        },
        City::Dusseldorf => {
            reveal_strlit("Düsseldorf");
        },
        City::Edinburgh => {
            reveal_strlit("Edinburgh");
        },
        City::Eindhoven => {
            reveal_strlit("Eindhoven");
        },
        City::Essen => {
            reveal_strlit("Essen");
        },
        City::Exeter => {
            reveal_strlit("Exeter");
        },
        City::Ferrara => {
            reveal_strlit("Ferrara");
        },
        _ => {},
    }
}

#[verifier::spinoff_prover]
proof fn lemma_city_key_3(c: City)
    requires
        c == City::Florence || c == City::Forli || c == City::Frankfurt || c == City::Galway || c == City::Gdansk || c == City::Gdynia || c == City::Geneva || c == City::Genoa || c == City::Ghent || c == City::Glasgow || c == City::Gothenburg || c == City::Granada || c == City::Graz || c == City::Grenoble || c == City::Hamburg || c == City::Hannover || c == City::Heidelberg || c == City::Helsingborg || c == City::Helsinki || c == City::Iasi || c == City::Innsbruck || c == City::Karlsruhe || c == City::Katowice || c == City::Kiel || c == City::Kosice,
    ensures
        city_of_key(city_name(c).len(), name_key(city_name(c))) == c,
{
    match c {
        City::Florence => {
            reveal_strlit("Florence");
        },
        City::Forli => {
            reveal_strlit("Forlì");
        },
        City::Frankfurt => {
            reveal_strlit("Frankfurt");
        },
        City::Galway => {
            reveal_strlit("Galway");
        },
        City::Gdansk => {
            reveal_strlit("Gdańsk");
        },
        City::Gdynia => {
            reveal_strlit("Gdynia");
        },
        City::Geneva => {
            reveal_strlit("Geneva");
        },
        City::Genoa => {
            reveal_strlit("Genoa");
        },
        City::Ghent => {
            reveal_strlit("Ghent");
        },
        City::Glasgow => {
            reveal_strlit("Glasgow");
        },
        City::Gothenburg => {
            reveal_strlit("Gothenburg");
        },
        City::Granada => {
            reveal_strlit("Granada");
        },
        City::Graz => {
            reveal_strlit("Graz");
        },
        City::Grenoble => {
            reveal_strlit("Grenoble");
        },
        City::Hamburg => {
            reveal_strlit("Hamburg");
        },
        City::Hannover => {
            reveal_strlit("Hannover");
        },
        City::Heidelberg => {
            reveal_strlit("Heidelberg");
        },
        City::Helsingborg => {
            reveal_strlit("Helsingborg");
        },
        City::Helsinki => {
            reveal_strlit("Helsinki");
        },
        City::Iasi => {
            reveal_strlit("Iași");
        },
        City::Innsbruck => {
            reveal_strlit("Innsbruck");
        },
        City::Karlsruhe => {
            reveal_strlit("Karlsruhe");
        },
        City::Katowice => {
            reveal_strlit("Katowice");
        },
        City::Kiel => {
            reveal_strlit("Kiel");
        },
        City::Kosice => {
            reveal_strlit("Košice");
        },
        _ => {},
    }
}

#[verifier::spinoff_prover]
proof fn lemma_city_key_4(c: City)
    requires
        c == City::Krakow || c == City::LAquila || c == City::LaRochelle || c == City::LaSpezia || c == City::Lausanne || c == City::LeMans || c == City::Leeds || c == City::Leicester || c == City::Leipzig || c == City::Lille || c == City::Limerick || c == City::Limoges || c == City::Linkoping || c == City::Linz || c == City::Lisbon || c == City::Liverpool || c == City::Livorno || c == City::Liege || c == City::Ljubljana || c == City::Logrono || c == City::London || c == City::Lublin || c == City::Lucerne || c == City::Lugano || c == City::Lund,
    ensures
        city_of_key(city_name(c).len(), name_key(city_name(c))) == c,
{
    match c {
        City::Krakow => {
            reveal_strlit("Krakow");
        },
        City::LAquila => {
            reveal_strlit("L'Aquila");
        },
        City::LaRochelle => {
            reveal_strlit("La Rochelle");
        },
        City::LaSpezia => {
            reveal_strlit("La Spezia");
        },
        City::Lausanne => {
            reveal_strlit("Lausanne");
        },
        City::LeMans => {
            reveal_strlit("Le Mans");
        },
        City::Leeds => {
            reveal_strlit("Leeds");
        },
        City::Leicester => {
            reveal_strlit("Leicester");
        },
        City::Leipzig => {
            reveal_strlit("Leipzig");
        },
        City::Lille => {
            reveal_strlit("Lille");
        },
        City::Limerick => {
            reveal_strlit("Limerick");
        },
        City::Limoges => {
            reveal_strlit("Limoges");
        },
        City::Linkoping => {
            reveal_strlit("Linköping");
        },
        City::Linz => {
            reveal_strlit("Linz");
        },
        City::Lisbon => {
            reveal_strlit("Lisbon");
        },
        City::Liverpool => {
            reveal_strlit("Liverpool");
        },
        City::Livorno => {
            reveal_strlit("Livorno");
        },
        City::Liege => {
            reveal_strlit("Liège");
        },
        City::Ljubljana => {
            reveal_strlit("Ljubljana");
        },
        City::Logrono => {
            reveal_strlit("Logroño");
        },
        City::London => {
            reveal_strlit("London");
        },
        City::Lublin => {
            reveal_strlit("Lublin");
        },
        City::Lucerne => {
            reveal_strlit("Lucerne");
        },
        City::Lugano => {
            reveal_strlit("Lugano");
        },
        City::Lund => {
            reveal_strlit("Lund");
        },
        _ => {},
    }
}

#[verifier::spinoff_prover]
proof fn lemma_city_key_5(c: City)
    requires
        c == City::Lyon || c == City::Madrid || c == City::Malmo || c == City::Manchester || c == City::Mannheim || c == City::Maribor || c == City::Marseille || c == City::Messina || c == City::Metz || c == City::Milan || c == City::Modena || c == City::Montpellier || c == City::Mostar || c == City::Mulhouse || c == City::Munich || c == City::Murcia || c == City::Malaga || c == City::Nancy || c == City::Nantes || c == City::Naples || c == City::Narbonne || c == City::Newcastle || c == City::Nice || c == City::Nis || c == City::Norrkoping,
    ensures
        city_of_key(city_name(c).len(), name_key(city_name(c))) == c,
{
    match c {
        City::Lyon => {
            reveal_strlit("Lyon");
        },
        City::Madrid => {
            reveal_strlit("Madrid");
        },
        City::Malmo => {
            reveal_strlit("Malmö");
        },
        City::Manchester => {
            reveal_strlit("Manchester");
        },
        City::Mannheim => {
            reveal_strlit("Mannheim");
        },
        City::Maribor => {
            reveal_strlit("Maribor");
        },
        City::Marseille => {
            reveal_strlit("Marseille");
        },
        City::Messina => {
            reveal_strlit("Messina");
        },
        City::Metz => {
            reveal_strlit("Metz");
        },
        City::Milan => {
            reveal_strlit("Milan");
        },
        City::Modena => {
            reveal_strlit("Modena");
        },
        City::Montpellier => {
            reveal_strlit("Montpellier");
        },
        City::Mostar => {
            reveal_strlit("Mostar");
        },
        City::Mulhouse => {
            reveal_strlit("Mulhouse");
        },
        City::Munich => {
            reveal_strlit("Munich");
        },
        City::Murcia => {
            reveal_strlit("Murcia");
        },
        City::Malaga => {
            reveal_strlit("Málaga");
        },
        City::Nancy => {
            reveal_strlit("Nancy");
        },
        City::Nantes => {
            reveal_strlit("Nantes");
        },
        City::Naples => {
            reveal_strlit("Naples");
        },
        City::Narbonne => {
            reveal_strlit("Narbonne");
        },
        City::Newcastle => {
            reveal_strlit("Newcastle");
        },
        City::Nice => {
            reveal_strlit("Nice");
        },
        City::Nis => {
            reveal_strlit("Niš");
        },
        City::Norrkoping => {
            reveal_strlit("Norrköping");
        },
        _ => {},
    }
}

#[verifier::spinoff_prover]
proof fn lemma_city_key_6(c: City)
    requires
        c == City::Nottingham || c == City::NoviSad || c == City::Nuremberg || c == City::Nimes || c == City::Odense || c == City::Oslo || c == City::Ostrava || c == City::Oulu || c == City::Oviedo || c == City::Oxford || c == City::Padua || c == City::Palermo || c == City::Pamplona || c == City::Paris || c == City::Parma || c == City::Perpignan || c == City::Perugia || c == City::Piacenza || c == City::Pisa || c == City::Plovdiv || c == City::Plymouth || c == City::Plzen || c == City::Poitiers || c == City::Porto || c == City::Portsmouth,
    ensures
        city_of_key(city_name(c).len(), name_key(city_name(c))) == c,
{
    match c {
        City::Nottingham => {
            reveal_strlit("Nottingham");
        },
        City::NoviSad => {
            reveal_strlit("Novi Sad");
        },
        City::Nuremberg => {
            reveal_strlit("Nuremberg");
        },
        City::Nimes => {
            reveal_strlit("Nîmes");
        },
        City::Odense => {
            reveal_strlit("Odense");
        },
        City::Oslo => {
            reveal_strlit("Oslo");
        },
        City::Ostrava => {
            reveal_strlit("Ostrava");
        },
        City::Oulu => {
            reveal_strlit("Oulu");
        },
        City::Oviedo => {
            reveal_strlit("Oviedo");
        },
        City::Oxford => {
            reveal_strlit("Oxford");
        },
        City::Padua => {
            reveal_strlit("Padua");
        },
        City::Palermo => {
            reveal_strlit("Palermo");
        },
        City::Pamplona => {
            reveal_strlit("Pamplona");
        },
        City::Paris => {
            reveal_strlit("Paris");
        },
        City::Parma => {
            reveal_strlit("Parma");
        },
        City::Perpignan => {
            reveal_strlit("Perpignan");
        },
        City::Perugia => {
            reveal_strlit("Perugia");
        },
        City::Piacenza => {
            reveal_strlit("Piacenza");
        },
        City::Pisa => {
            reveal_strlit("Pisa");
        },
        City::Plovdiv => {
            reveal_strlit("Plovdiv");
        },
        City::Plymouth => {
            reveal_strlit("Plymouth");
        },
        City::Plzen => {
            reveal_strlit("Plzeň");
        },
        City::Poitiers => {
            reveal_strlit("Poitiers");
        },
        City::Porto => {
            reveal_strlit("Porto");
        },
        City::Portsmouth => {
            reveal_strlit("Portsmouth");
        },
        _ => {},
    }
}

#[verifier::spinoff_prover]
proof fn lemma_city_key_7(c: City)
    requires
        c == City::Potsdam || c == City::Poznan || c == City::Prague || c == City::Pecs || c == City::Ravenna || c == City::Reading || c == City::Regensburg || c == City::ReggioCalabria || c == City::ReggioEmilia || c == City::Reims || c == City::Rennes || c == City::Rijeka || c == City::Rimini || c == City::Rome || c == City::Rostock || c == City::Rotterdam || c == City::Rouen || c == City::Salamanca || c == City::Salerno || c == City::Salzburg || c == City::SanSebastian || c == City::Santander || c == City::SantiagoDeCompostela || c == City::Sarajevo || c == City::Seville,
    ensures
        city_of_key(city_name(c).len(), name_key(city_name(c))) == c,
{
    match c {
        City::Potsdam => {
            reveal_strlit("Potsdam");
        },
        City::Poznan => {
            reveal_strlit("Poznań");
        },
        City::Prague => {
            reveal_strlit("Prague");
        },
        City::Pecs => {
            reveal_strlit("Pécs");
        },
        City::Ravenna => {
            reveal_strlit("Ravenna");
        },
        City::Reading => {
            reveal_strlit("Reading");
        },
        City::Regensburg => {
            reveal_strlit("Regensburg");
        },
        City::ReggioCalabria => {
            reveal_strlit("Reggio Calabria");
        },
        City::ReggioEmilia => {
            reveal_strlit("Reggio Emilia");
        },
        City::Reims => {
            reveal_strlit("Reims");
        },
        City::Rennes => {
            reveal_strlit("Rennes");
        },
        City::Rijeka => {
            reveal_strlit("Rijeka");
        },
        City::Rimini => {
            reveal_strlit("Rimini");
        },
        City::Rome => {
            reveal_strlit("Rome");
        },
        City::Rostock => {
            reveal_strlit("Rostock");
        },
        City::Rotterdam => {
            reveal_strlit("Rotterdam");
        },
        City::Rouen => {
            reveal_strlit("Rouen");
        },
        City::Salamanca => {
            reveal_strlit("Salamanca");
        },
        City::Salerno => {
            reveal_strlit("Salerno");
        },
        City::Salzburg => {
            reveal_strlit("Salzburg");
        },
        City::SanSebastian => {
            reveal_strlit("San Sebastián");
        },
        City::Santander => {
            reveal_strlit("Santander");
        },
        City::SantiagoDeCompostela => {
            reveal_strlit("Santiago de Compostela");
        },
        City::Sarajevo => {
            reveal_strlit("Sarajevo");
        },
        City::Seville => {
            reveal_strlit("Seville");
        },
        _ => {},
    }
}

#[verifier::spinoff_prover]
proof fn lemma_city_key_8(c: City)
    requires
        c == City::Sheffield || c == City::Sofia || c == City::Sopot || c == City::Southampton || c == City::Split || c == City::StGallen || c == City::Stavanger || c == City::Stockholm || c == City::Strasbourg || c == City::Stuttgart || c == City::Swansea || c == City::Szeged || c == City::Tampere || c == City::Taranto || c == City::Terni || c == City::TheHague || c == City::Thessaloniki || c == City::Timisoara || c == City::Toledo || c == City::Toulouse || c == City::Tours || c == City::Trento || c == City::Trieste || c == City::Trondheim || c == City::Turin,
    ensures
        city_of_key(city_name(c).len(), name_key(city_name(c))) == c,
{
    match c {
        City::Sheffield => {
            reveal_strlit("Sheffield");
        },
        City::Sofia => {
            reveal_strlit("Sofia");
        },
        City::Sopot => {
            reveal_strlit("Sopot");
        },
        City::Southampton => {
            reveal_strlit("Southampton");
        },
        City::Split => {
            reveal_strlit("Split");
        },
        City::StGallen => {
            reveal_strlit("St. Gallen");
        },
        City::Stavanger => {
            reveal_strlit("Stavanger");
        },
        City::Stockholm => {
            reveal_strlit("Stockholm");
        },
        City::Strasbourg => {
            reveal_strlit("Strasbourg");
        },
        City::Stuttgart => {
            reveal_strlit("Stuttgart");
        },
        City::Swansea => {
            reveal_strlit("Swansea");
        },
        City::Szeged => {
            reveal_strlit("Szeged");
        },
        City::Tampere => {
            reveal_strlit("Tampere");
        },
        City::Taranto => {
            reveal_strlit("Taranto");
        },
        City::Terni => {
            reveal_strlit("Terni");
        },
        City::TheHague => {
            reveal_strlit("The Hague");
        },
        City::Thessaloniki => {
            reveal_strlit("Thessaloniki");
        },
        City::Timisoara => {
            reveal_strlit("Timișoara");
        },
        City::Toledo => {
            reveal_strlit("Toledo");
        },
        City::Toulouse => {
            reveal_strlit("Toulouse");
        },
        City::Tours => {
            reveal_strlit("Tours");
        },
        City::Trento => {
            reveal_strlit("Trento");
        },
        City::Trieste => {
            reveal_strlit("Trieste");
        },
        City::Trondheim => {
            reveal_strlit("Trondheim");
        },
        City::Turin => {
            reveal_strlit("Turin");
        },
        _ => {},
    }
}

#[verifier::spinoff_prover]
proof fn lemma_city_key_9(c: City)
    requires
        c == City::Turku || c == City::Uppsala || c == City::Utrecht || c == City::Valencia || c == City::Valladolid || c == City::Varna || c == City::Venice || c == City::Verona || c == City::Versailles || c == City::Vicenza || c == City::Vienna || c == City::Vigo || c == City::Vasteras || c == City::Warsaw || c == City::Waterford || c == City::Wroclaw || c == City::Wurzburg || c == City::York || c == City::Zagreb || c == City::Zaragoza || c == City::Zurich || c == City::Orebro || c == City::CeskeBudejovice || c == City::Lodz,
    ensures
        city_of_key(city_name(c).len(), name_key(city_name(c))) == c,
{
    match c {
        City::Turku => {
            reveal_strlit("Turku");
        },
        City::Uppsala => {
            reveal_strlit("Uppsala");
        },
        City::Utrecht => {
            reveal_strlit("Utrecht");
        },
        City::Valencia => {
            reveal_strlit("Valencia");
        },
        City::Valladolid => {
            reveal_strlit("Valladolid");
        },
        City::Varna => {
            reveal_strlit("Varna");
        },
        City::Venice => {
            reveal_strlit("Venice");
        },
        City::Verona => {
            reveal_strlit("Verona");
        },
        City::Versailles => {
            reveal_strlit("Versailles");
        },
        City::Vicenza => {
            reveal_strlit("Vicenza");
        },
        City::Vienna => {
            reveal_strlit("Vienna");
        },
        City::Vigo => {
            reveal_strlit("Vigo");
        },
        City::Vasteras => {
            reveal_strlit("Västerås");
        },
        City::Warsaw => {
            reveal_strlit("Warsaw");
        },
        City::Waterford => {
            reveal_strlit("Waterford");
        },
        City::Wroclaw => {
            reveal_strlit("Wrocław");
        },
        City::Wurzburg => {
            reveal_strlit("Würzburg");
        },
        City::York => {
            reveal_strlit("York");
        },
        City::Zagreb => {
            reveal_strlit("Zagreb");
        },
        City::Zaragoza => {
            reveal_strlit("Zaragoza");
        },
        City::Zurich => {
            reveal_strlit("Zurich");
        },
        City::Orebro => {
            reveal_strlit("Örebro");
        },
        City::CeskeBudejovice => {
            reveal_strlit("České Budějovice");
        },
        City::Lodz => {
            reveal_strlit("Łódź");
        },
        _ => {},
    }
}

proof fn lemma_city_key(c: City)
    ensures
        city_of_key(city_name(c).len(), name_key(city_name(c))) == c,
{
    if c == City::ACoruna || c == City::Aalborg || c == City::Aarhus || c == City::Alicante || c == City::Almeria || c == City::Amiens || c == City::Amsterdam || c == City::Ancona || c == City::Angers || c == City::Annecy || c == City::Antwerp || c == City::Arezzo || c == City::Ashford || c == City::Augsburg || c == City::Avignon || c == City::Badajoz || c == City::Barcelona || c == City::Bari || c == City::Basel || c == City::Belgrade || c == City::Bergamo || c == City::Bergen || c == City::Berlin || c == City::Bern || c == City::Besancon {
        lemma_city_key_0(c);
    } else if c == City::Bilbao || c == City::Birmingham || c == City::Bochum || c == City::Bologna || c == City::Bolzano || c == City::Bonn || c == City::Bordeaux || c == City::Bratislava || c == City::Brasov || c == City::Bremen || c == City::Brescia || c == City::Brest || c == City::Brighton || c == City::Brindisi || c == City::Bristol || c == City::Brno || c == City::Bruges || c == City::Brussels || c == City::Bucharest || c == City::Budapest || c == City::Burgas || c == City::Burgos || c == City::Calais || c == City::Cambridge || c == City::Cardiff {
        lemma_city_key_1(c);
    } else if c == City::Cartagena || c == City::Catania || c == City::Chambery || c == City::ClermontFerrand || c == City::ClujNapoca || c == City::Cologne || c == City::Como || c == City::Copenhagen || c == City::Cork || c == City::Cuenca || c == City::Cadiz || c == City::Cordoba || c == City::Debrecen || c == City::Derby || c == City::Dijon || c == City::Dortmund || c == City::Drammen || c == City::Dresden || c == City::Dublin || c == City::Dusseldorf || c == City::Edinburgh || c == City::Eindhoven || c == City::Essen || c == City::Exeter || c == City::Ferrara {
        lemma_city_key_2(c);
    } else if c == City::Florence || c == City::Forli || c == City::Frankfurt || c == City::Galway || c == City::Gdansk || c == City::Gdynia || c == City::Geneva || c == City::Genoa || c == City::Ghent || c == City::Glasgow || c == City::Gothenburg || c == City::Granada || c == City::Graz || c == City::Grenoble || c == City::Hamburg || c == City::Hannover || c == City::Heidelberg || c == City::Helsingborg || c == City::Helsinki || c == City::Iasi || c == City::Innsbruck || c == City::Karlsruhe || c == City::Katowice || c == City::Kiel || c == City::Kosice {
        lemma_city_key_3(c);
    } else if c == City::Krakow || c == City::LAquila || c == City::LaRochelle || c == City::LaSpezia || c == City::Lausanne || c == City::LeMans || c == City::Leeds || c == City::Leicester || c == City::Leipzig || c == City::Lille || c == City::Limerick || c == City::Limoges || c == City::Linkoping || c == City::Linz || c == City::Lisbon || c == City::Liverpool || c == City::Livorno || c == City::Liege || c == City::Ljubljana || c == City::Logrono || c == City::London || c == City::Lublin || c == City::Lucerne || c == City::Lugano || c == City::Lund {
        lemma_city_key_4(c);
    } else if c == City::Lyon || c == City::Madrid || c == City::Malmo || c == City::Manchester || c == City::Mannheim || c == City::Maribor || c == City::Marseille || c == City::Messina || c == City::Metz || c == City::Milan || c == City::Modena || c == City::Montpellier || c == City::Mostar || c == City::Mulhouse || c == City::Munich || c == City::Murcia || c == City::Malaga || c == City::Nancy || c == City::Nantes || c == City::Naples || c == City::Narbonne || c == City::Newcastle || c == City::Nice || c == City::Nis || c == City::Norrkoping {
        lemma_city_key_5(c);
    } else if c == City::Nottingham || c == City::NoviSad || c == City::Nuremberg || c == City::Nimes || c == City::Odense || c == City::Oslo || c == City::Ostrava || c == City::Oulu || c == City::Oviedo || c == City::Oxford || c == City::Padua || c == City::Palermo || c == City::Pamplona || c == City::Paris || c == City::Parma || c == City::Perpignan || c == City::Perugia || c == City::Piacenza || c == City::Pisa || c == City::Plovdiv || c == City::Plymouth || c == City::Plzen || c == City::Poitiers || c == City::Porto || c == City::Portsmouth {
        lemma_city_key_6(c);
    } else if c == City::Potsdam || c == City::Poznan || c == City::Prague || c == City::Pecs || c == City::Ravenna || c == City::Reading || c == City::Regensburg || c == City::ReggioCalabria || c == City::ReggioEmilia || c == City::Reims || c == City::Rennes || c == City::Rijeka || c == City::Rimini || c == City::Rome || c == City::Rostock || c == City::Rotterdam || c == City::Rouen || c == City::Salamanca || c == City::Salerno || c == City::Salzburg || c == City::SanSebastian || c == City::Santander || c == City::SantiagoDeCompostela || c == City::Sarajevo || c == City::Seville {
        lemma_city_key_7(c);
    } else if c == City::Sheffield || c == City::Sofia || c == City::Sopot || c == City::Southampton || c == City::Split || c == City::StGallen || c == City::Stavanger || c == City::Stockholm || c == City::Strasbourg || c == City::Stuttgart || c == City::Swansea || c == City::Szeged || c == City::Tampere || c == City::Taranto || c == City::Terni || c == City::TheHague || c == City::Thessaloniki || c == City::Timisoara || c == City::Toledo || c == City::Toulouse || c == City::Tours || c == City::Trento || c == City::Trieste || c == City::Trondheim || c == City::Turin {
        lemma_city_key_8(c);
    } else {
        lemma_city_key_9(c);
    }
}

/// No two cities share a display name, so a city's name leads back to it.
pub proof fn lemma_city_name_injective(a: City, b: City)
    requires
        city_name(a) == city_name(b),
    ensures
        a == b,
{
    lemma_city_key(a);
    lemma_city_key(b);
}

/// Every city has a display name of at least one character.
pub proof fn lemma_city_name_nonempty(c: City)
    ensures
        city_name(c).len() > 0,
{
    lemma_city_key(c);
    reveal_strlit("A Coruña");
}

/// The city whose display name is `s`, if there is one.
pub open spec fn city_named(s: Seq<char>) -> Option<City> {
    if exists|c: City| city_name(c) == s {
        Some(choose|c: City| city_name(c) == s)
    } else {
        None
    }
}

/// The city that a name belongs to is the one that `city_named` gives.
pub proof fn lemma_city_named(c: City)
    ensures
        city_named(city_name(c)) == Some(c),
{
    let d = choose|d: City| city_name(d) == city_name(c);
    lemma_city_name_injective(c, d);
}

/// The position of a city in its list.
pub open spec fn city_index(c: City) -> int {
    match c {
        City::ACoruna => 0,
        City::Aalborg => 1,
        City::Aarhus => 2,
        City::Alicante => 3,
        City::Almeria => 4,
        City::Amiens => 5,
        City::Amsterdam => 6,
        City::Ancona => 7,
        City::Angers => 8,
        City::Annecy => 9,
        City::Antwerp => 10,
        City::Arezzo => 11,
        City::Ashford => 12,
        City::Augsburg => 13,
        City::Avignon => 14,
        City::Badajoz => 15,
        City::Barcelona => 16,
        City::Bari => 17,
        City::Basel => 18,
        City::Belgrade => 19,
        City::Bergamo => 20,
        City::Bergen => 21,
        City::Berlin => 22,
        City::Bern => 23,
        City::Besancon => 24,
        City::Bilbao => 25,
        City::Birmingham => 26,
        City::Bochum => 27,
        City::Bologna => 28,
        City::Bolzano => 29,
        City::Bonn => 30,
        City::Bordeaux => 31,
        City::Bratislava => 32,
        City::Brasov => 33,
        City::Bremen => 34,
        City::Brescia => 35,
        City::Brest => 36,
        City::Brighton => 37,
        City::Brindisi => 38,
        City::Bristol => 39,
        City::Brno => 40,
        City::Bruges => 41,
        City::Brussels => 42,
        City::Bucharest => 43,
        City::Budapest => 44,
        City::Burgas => 45,
        City::Burgos => 46,
        City::Calais => 47,
        City::Cambridge => 48,
        City::Cardiff => 49,
        City::Cartagena => 50,
        City::Catania => 51,
        City::Chambery => 52,
        City::ClermontFerrand => 53,
        City::ClujNapoca => 54,
        City::Cologne => 55,
        City::Como => 56,
        City::Copenhagen => 57,
        City::Cork => 58,
        City::Cuenca => 59,
        City::Cadiz => 60,
        City::Cordoba => 61,
        City::Debrecen => 62,
        City::Derby => 63,
        City::Dijon => 64,
        City::Dortmund => 65,
        City::Drammen => 66,
        City::Dresden => 67,
        City::Dublin => 68,
        City::Dusseldorf => 69,
        City::Edinburgh => 70,
        City::Eindhoven => 71,
        City::Essen => 72,
        City::Exeter => 73,
        City::Ferrara => 74,
        City::Florence => 75,
        City::Forli => 76,
        City::Frankfurt => 77,
        City::Galway => 78,
        City::Gdansk => 79,
        City::Gdynia => 80,
        City::Geneva => 81,
        City::Genoa => 82,
        City::Ghent => 83,
        City::Glasgow => 84,
        City::Gothenburg => 85,
        City::Granada => 86,
        City::Graz => 87,
        City::Grenoble => 88,
        City::Hamburg => 89,
        City::Hannover => 90,
        City::Heidelberg => 91,
        City::Helsingborg => 92,
        City::Helsinki => 93,
        City::Iasi => 94,
        City::Innsbruck => 95,
        City::Karlsruhe => 96,
        City::Katowice => 97,
        City::Kiel => 98,
        City::Kosice => 99,
        City::Krakow => 100,
        City::LAquila => 101,
        City::LaRochelle => 102,
        City::LaSpezia => 103,
        City::Lausanne => 104,
        City::LeMans => 105,
        City::Leeds => 106,
        City::Leicester => 107,
        City::Leipzig => 108,
        City::Lille => 109,
        City::Limerick => 110,
        City::Limoges => 111,
        City::Linkoping => 112,
        City::Linz => 113,
        City::Lisbon => 114,
        City::Liverpool => 115,
        City::Livorno => 116,
        City::Liege => 117,
        City::Ljubljana => 118,
        City::Logrono => 119,
        City::London => 120,
        City::Lublin => 121,
        City::Lucerne => 122,
        City::Lugano => 123,
        City::Lund => 124,
        City::Lyon => 125,
        City::Madrid => 126,
        City::Malmo => 127,
        City::Manchester => 128,
        City::Mannheim => 129,
        City::Maribor => 130,
        City::Marseille => 131,
        City::Messina => 132,
        City::Metz => 133,
        City::Milan => 134,
        City::Modena => 135,
        City::Montpellier => 136,
        City::Mostar => 137,
        City::Mulhouse => 138,
        City::Munich => 139,
        City::Murcia => 140,
        City::Malaga => 141,
        City::Nancy => 142,
        City::Nantes => 143,
        City::Naples => 144,
        City::Narbonne => 145,
        City::Newcastle => 146,
        City::Nice => 147,
        City::Nis => 148,
        City::Norrkoping => 149,
        City::Nottingham => 150,
        City::NoviSad => 151,
        City::Nuremberg => 152,
        City::Nimes => 153,
        City::Odense => 154,
        City::Oslo => 155,
        City::Ostrava => 156,
        City::Oulu => 157,
        City::Oviedo => 158,
        City::Oxford => 159,
        City::Padua => 160,
        City::Palermo => 161,
        City::Pamplona => 162,
        City::Paris => 163,
        City::Parma => 164,
        City::Perpignan => 165,
        City::Perugia => 166,
        City::Piacenza => 167,
        City::Pisa => 168,
        City::Plovdiv => 169,
        City::Plymouth => 170,
        City::Plzen => 171,
        City::Poitiers => 172,
        City::Porto => 173,
        City::Portsmouth => 174,
        City::Potsdam => 175,
        City::Poznan => 176,
        City::Prague => 177,
        City::Pecs => 178,
        City::Ravenna => 179,
        City::Reading => 180,
        City::Regensburg => 181,
        City::ReggioCalabria => 182,
        City::ReggioEmilia => 183,
        City::Reims => 184,
        City::Rennes => 185,
        City::Rijeka => 186,
        City::Rimini => 187,
        City::Rome => 188,
        City::Rostock => 189,
        City::Rotterdam => 190,
        City::Rouen => 191,
        City::Salamanca => 192,
        City::Salerno => 193,
        City::Salzburg => 194,
        City::SanSebastian => 195,
        City::Santander => 196,
        City::SantiagoDeCompostela => 197,
        City::Sarajevo => 198,
        City::Seville => 199,
        City::Sheffield => 200,
        City::Sofia => 201,
        City::Sopot => 202,
        City::Southampton => 203,
        City::Split => 204,
        City::StGallen => 205,
        City::Stavanger => 206,
        City::Stockholm => 207,
        City::Strasbourg => 208,
        City::Stuttgart => 209,
        City::Swansea => 210,
        City::Szeged => 211,
        City::Tampere => 212,
        City::Taranto => 213,
        City::Terni => 214,
        City::TheHague => 215,
        City::Thessaloniki => 216,
        City::Timisoara => 217,
        City::Toledo => 218,
        City::Toulouse => 219,
        City::Tours => 220,
        City::Trento => 221,
        City::Trieste => 222,
        City::Trondheim => 223,
        City::Turin => 224,
        City::Turku => 225,
        City::Uppsala => 226,
        City::Utrecht => 227,
        City::Valencia => 228,
        City::Valladolid => 229,
        City::Varna => 230,
        City::Venice => 231,
        City::Verona => 232,
        City::Versailles => 233,
        City::Vicenza => 234,
        City::Vienna => 235,
        City::Vigo => 236,
        City::Vasteras => 237,
        City::Warsaw => 238,
        City::Waterford => 239,
        City::Wroclaw => 240,
        City::Wurzburg => 241,
        City::York => 242,
        City::Zagreb => 243,
        City::Zaragoza => 244,
        City::Zurich => 245,
        City::Orebro => 246,
        City::CeskeBudejovice => 247,
        City::Lodz => 248,
    }
}

#[verifier::spinoff_prover]
proof fn lemma_city_position_0(i: int)
    requires
        0 <= i < 25,
    ensures
        city_index(city_list()[i]) == i,
{
    assert(city_list()[0] == City::ACoruna);
    assert(city_list()[1] == City::Aalborg);
    assert(city_list()[2] == City::Aarhus);
    assert(city_list()[3] == City::Alicante);
    assert(city_list()[4] == City::Almeria);
    assert(city_list()[5] == City::Amiens);
    assert(city_list()[6] == City::Amsterdam);
    assert(city_list()[7] == City::Ancona);
    assert(city_list()[8] == City::Angers);
    assert(city_list()[9] == City::Annecy);
    assert(city_list()[10] == City::Antwerp);
    assert(city_list()[11] == City::Arezzo);
    assert(city_list()[12] == City::Ashford);
    assert(city_list()[13] == City::Augsburg);
    assert(city_list()[14] == City::Avignon);
    assert(city_list()[15] == City::Badajoz);
    assert(city_list()[16] == City::Barcelona);
    assert(city_list()[17] == City::Bari);
    assert(city_list()[18] == City::Basel);
    assert(city_list()[19] == City::Belgrade);
    assert(city_list()[20] == City::Bergamo);
    assert(city_list()[21] == City::Bergen);
    assert(city_list()[22] == City::Berlin);
    assert(city_list()[23] == City::Bern);
    assert(city_list()[24] == City::Besancon);
    assert(i == 0 || i == 1 || i == 2 || i == 3 || i == 4 || i == 5 || i == 6 || i == 7 || i == 8 || i == 9 || i == 10 || i == 11 || i == 12 || i == 13 || i == 14 || i == 15 || i == 16 || i == 17 || i == 18 || i == 19 || i == 20 || i == 21 || i == 22 || i == 23 || i == 24);
}

#[verifier::spinoff_prover]
proof fn lemma_city_position_1(i: int)
    requires
        25 <= i < 50,
    ensures
        city_index(city_list()[i]) == i,
{
    assert(city_list()[25] == City::Bilbao);
    assert(city_list()[26] == City::Birmingham);
    assert(city_list()[27] == City::Bochum);
    assert(city_list()[28] == City::Bologna);
    assert(city_list()[29] == City::Bolzano);
    assert(city_list()[30] == City::Bonn);
    assert(city_list()[31] == City::Bordeaux);
    assert(city_list()[32] == City::Bratislava);
    assert(city_list()[33] == City::Brasov);
    assert(city_list()[34] == City::Bremen);
    assert(city_list()[35] == City::Brescia);
    assert(city_list()[36] == City::Brest);
    assert(city_list()[37] == City::Brighton);
    assert(city_list()[38] == City::Brindisi);
    assert(city_list()[39] == City::Bristol);
    assert(city_list()[40] == City::Brno);
    assert(city_list()[41] == City::Bruges);
    assert(city_list()[42] == City::Brussels);
    assert(city_list()[43] == City::Bucharest);
    assert(city_list()[44] == City::Budapest);
    assert(city_list()[45] == City::Burgas);
    assert(city_list()[46] == City::Burgos);
    assert(city_list()[47] == City::Calais);
    assert(city_list()[48] == City::Cambridge);
    assert(city_list()[49] == City::Cardiff);
    assert(i == 25 || i == 26 || i == 27 || i == 28 || i == 29 || i == 30 || i == 31 || i == 32 || i == 33 || i == 34 || i == 35 || i == 36 || i == 37 || i == 38 || i == 39 || i == 40 || i == 41 || i == 42 || i == 43 || i == 44 || i == 45 || i == 46 || i == 47 || i == 48 || i == 49);
}

#[verifier::spinoff_prover]
proof fn lemma_city_position_2(i: int)
    requires
        50 <= i < 75,
    ensures
        city_index(city_list()[i]) == i,
{
    assert(city_list()[50] == City::Cartagena);
    assert(city_list()[51] == City::Catania);
    assert(city_list()[52] == City::Chambery);
    assert(city_list()[53] == City::ClermontFerrand);
    assert(city_list()[54] == City::ClujNapoca);
    assert(city_list()[55] == City::Cologne);
    assert(city_list()[56] == City::Como);
    assert(city_list()[57] == City::Copenhagen);
    assert(city_list()[58] == City::Cork);
    assert(city_list()[59] == City::Cuenca);
    assert(city_list()[60] == City::Cadiz);
    assert(city_list()[61] == City::Cordoba);
    assert(city_list()[62] == City::Debrecen);
    assert(city_list()[63] == City::Derby);
    assert(city_list()[64] == City::Dijon);
    assert(city_list()[65] == City::Dortmund);
    assert(city_list()[66] == City::Drammen);
    assert(city_list()[67] == City::Dresden);
    assert(city_list()[68] == City::Dublin);
    assert(city_list()[69] == City::Dusseldorf);
    assert(city_list()[70] == City::Edinburgh);
    assert(city_list()[71] == City::Eindhoven);
    assert(city_list()[72] == City::Essen);
    assert(city_list()[73] == City::Exeter);
    assert(city_list()[74] == City::Ferrara);
    assert(i == 50 || i == 51 || i == 52 || i == 53 || i == 54 || i == 55 || i == 56 || i == 57 || i == 58 || i == 59 || i == 60 || i == 61 || i == 62 || i == 63 || i == 64 || i == 65 || i == 66 || i == 67 || i == 68 || i == 69 || i == 70 || i == 71 || i == 72 || i == 73 || i == 74);
}

#[verifier::spinoff_prover]
proof fn lemma_city_position_3(i: int)
    requires
        75 <= i < 100,
    ensures
        city_index(city_list()[i]) == i,
{
    assert(city_list()[75] == City::Florence);
    assert(city_list()[76] == City::Forli);
    assert(city_list()[77] == City::Frankfurt);
    assert(city_list()[78] == City::Galway);
    assert(city_list()[79] == City::Gdansk);
    assert(city_list()[80] == City::Gdynia);
    assert(city_list()[81] == City::Geneva);
    assert(city_list()[82] == City::Genoa);
    assert(city_list()[83] == City::Ghent);
    assert(city_list()[84] == City::Glasgow);
    assert(city_list()[85] == City::Gothenburg);
    assert(city_list()[86] == City::Granada);
    assert(city_list()[87] == City::Graz);
    assert(city_list()[88] == City::Grenoble);
    assert(city_list()[89] == City::Hamburg);
    assert(city_list()[90] == City::Hannover);
    assert(city_list()[91] == City::Heidelberg);
    assert(city_list()[92] == City::Helsingborg);
    assert(city_list()[93] == City::Helsinki);
    assert(city_list()[94] == City::Iasi);
    assert(city_list()[95] == City::Innsbruck);
    assert(city_list()[96] == City::Karlsruhe);
    assert(city_list()[97] == City::Katowice);
    assert(city_list()[98] == City::Kiel);
    assert(city_list()[99] == City::Kosice);
    assert(i == 75 || i == 76 || i == 77 || i == 78 || i == 79 || i == 80 || i == 81 || i == 82 || i == 83 || i == 84 || i == 85 || i == 86 || i == 87 || i == 88 || i == 89 || i == 90 || i == 91 || i == 92 || i == 93 || i == 94 || i == 95 || i == 96 || i == 97 || i == 98 || i == 99);
}

#[verifier::spinoff_prover]
proof fn lemma_city_position_4(i: int)
    requires
        100 <= i < 125,
    ensures
        city_index(city_list()[i]) == i,
{
    assert(city_list()[100] == City::Krakow);
    assert(city_list()[101] == City::LAquila);
    assert(city_list()[102] == City::LaRochelle);
    assert(city_list()[103] == City::LaSpezia);
    assert(city_list()[104] == City::Lausanne);
    assert(city_list()[105] == City::LeMans);
    assert(city_list()[106] == City::Leeds);
    assert(city_list()[107] == City::Leicester);
    assert(city_list()[108] == City::Leipzig);
    assert(city_list()[109] == City::Lille);
    assert(city_list()[110] == City::Limerick);
    assert(city_list()[111] == City::Limoges);
    assert(city_list()[112] == City::Linkoping);
    assert(city_list()[113] == City::Linz);
    assert(city_list()[114] == City::Lisbon);
    assert(city_list()[115] == City::Liverpool);
    assert(city_list()[116] == City::Livorno);
    assert(city_list()[117] == City::Liege);
    assert(city_list()[118] == City::Ljubljana);
    assert(city_list()[119] == City::Logrono);
    assert(city_list()[120] == City::London);
    assert(city_list()[121] == City::Lublin);
    assert(city_list()[122] == City::Lucerne);
    assert(city_list()[123] == City::Lugano);
    assert(city_list()[124] == City::Lund);
    assert(i == 100 || i == 101 || i == 102 || i == 103 || i == 104 || i == 105 || i == 106 || i == 107 || i == 108 || i == 109 || i == 110 || i == 111 || i == 112 || i == 113 || i == 114 || i == 115 || i == 116 || i == 117 || i == 118 || i == 119 || i == 120 || i == 121 || i == 122 || i == 123 || i == 124);
}

#[verifier::spinoff_prover]
proof fn lemma_city_position_5(i: int)
    requires
        125 <= i < 150,
    ensures
        city_index(city_list()[i]) == i,
{
    assert(city_list()[125] == City::Lyon);
    assert(city_list()[126] == City::Madrid);
    assert(city_list()[127] == City::Malmo);
    assert(city_list()[128] == City::Manchester);
    assert(city_list()[129] == City::Mannheim);
    assert(city_list()[130] == City::Maribor);
    assert(city_list()[131] == City::Marseille);
    assert(city_list()[132] == City::Messina);
    assert(city_list()[133] == City::Metz);
    assert(city_list()[134] == City::Milan);
    assert(city_list()[135] == City::Modena);
    assert(city_list()[136] == City::Montpellier);
    assert(city_list()[137] == City::Mostar);
    assert(city_list()[138] == City::Mulhouse);
    assert(city_list()[139] == City::Munich);
    assert(city_list()[140] == City::Murcia);
    assert(city_list()[141] == City::Malaga);
    assert(city_list()[142] == City::Nancy);
    assert(city_list()[143] == City::Nantes);
    assert(city_list()[144] == City::Naples);
    assert(city_list()[145] == City::Narbonne);
    assert(city_list()[146] == City::Newcastle);
    assert(city_list()[147] == City::Nice);
    assert(city_list()[148] == City::Nis);
    assert(city_list()[149] == City::Norrkoping);
    assert(i == 125 || i == 126 || i == 127 || i == 128 || i == 129 || i == 130 || i == 131 || i == 132 || i == 133 || i == 134 || i == 135 || i == 136 || i == 137 || i == 138 || i == 139 || i == 140 || i == 141 || i == 142 || i == 143 || i == 144 || i == 145 || i == 146 || i == 147 || i == 148 || i == 149);
}

#[verifier::spinoff_prover]
proof fn lemma_city_position_6(i: int)
    requires
        150 <= i < 175,
    ensures
        city_index(city_list()[i]) == i,
{
    assert(city_list()[150] == City::Nottingham);
    assert(city_list()[151] == City::NoviSad);
    assert(city_list()[152] == City::Nuremberg);
    assert(city_list()[153] == City::Nimes);
    assert(city_list()[154] == City::Odense);
    assert(city_list()[155] == City::Oslo);
    assert(city_list()[156] == City::Ostrava);
    assert(city_list()[157] == City::Oulu);
    assert(city_list()[158] == City::Oviedo);
    assert(city_list()[159] == City::Oxford);
    assert(city_list()[160] == City::Padua);
    assert(city_list()[161] == City::Palermo);
    assert(city_list()[162] == City::Pamplona);
    assert(city_list()[163] == City::Paris);
    assert(city_list()[164] == City::Parma);
    assert(city_list()[165] == City::Perpignan);
    assert(city_list()[166] == City::Perugia);
    assert(city_list()[167] == City::Piacenza);
    assert(city_list()[168] == City::Pisa);
    assert(city_list()[169] == City::Plovdiv);
    assert(city_list()[170] == City::Plymouth);
    assert(city_list()[171] == City::Plzen);
    assert(city_list()[172] == City::Poitiers);
    assert(city_list()[173] == City::Porto);
    assert(city_list()[174] == City::Portsmouth);
    assert(i == 150 || i == 151 || i == 152 || i == 153 || i == 154 || i == 155 || i == 156 || i == 157 || i == 158 || i == 159 || i == 160 || i == 161 || i == 162 || i == 163 || i == 164 || i == 165 || i == 166 || i == 167 || i == 168 || i == 169 || i == 170 || i == 171 || i == 172 || i == 173 || i == 174);
}

#[verifier::spinoff_prover]
proof fn lemma_city_position_7(i: int)
    requires
        175 <= i < 200,
    ensures
        city_index(city_list()[i]) == i,
{
    assert(city_list()[175] == City::Potsdam);
    assert(city_list()[176] == City::Poznan);
    assert(city_list()[177] == City::Prague);
    assert(city_list()[178] == City::Pecs);
    assert(city_list()[179] == City::Ravenna);
    assert(city_list()[180] == City::Reading);
    assert(city_list()[181] == City::Regensburg);
    assert(city_list()[182] == City::ReggioCalabria);
    assert(city_list()[183] == City::ReggioEmilia);
    assert(city_list()[184] == City::Reims);
    assert(city_list()[185] == City::Rennes);
    assert(city_list()[186] == City::Rijeka);
    assert(city_list()[187] == City::Rimini);
    assert(city_list()[188] == City::Rome);
    assert(city_list()[189] == City::Rostock);
    assert(city_list()[190] == City::Rotterdam);
    assert(city_list()[191] == City::Rouen);
    assert(city_list()[192] == City::Salamanca);
    assert(city_list()[193] == City::Salerno);
    assert(city_list()[194] == City::Salzburg);
    assert(city_list()[195] == City::SanSebastian);
    assert(city_list()[196] == City::Santander);
    assert(city_list()[197] == City::SantiagoDeCompostela);
    assert(city_list()[198] == City::Sarajevo);
    assert(city_list()[199] == City::Seville);
    assert(i == 175 || i == 176 || i == 177 || i == 178 || i == 179 || i == 180 || i == 181 || i == 182 || i == 183 || i == 184 || i == 185 || i == 186 || i == 187 || i == 188 || i == 189 || i == 190 || i == 191 || i == 192 || i == 193 || i == 194 || i == 195 || i == 196 || i == 197 || i == 198 || i == 199);
}

#[verifier::spinoff_prover]
proof fn lemma_city_position_8(i: int)
    requires
        200 <= i < 225,
    ensures
        city_index(city_list()[i]) == i,
{
    assert(city_list()[200] == City::Sheffield);
    assert(city_list()[201] == City::Sofia);
    assert(city_list()[202] == City::Sopot);
    assert(city_list()[203] == City::Southampton);
    assert(city_list()[204] == City::Split);
    assert(city_list()[205] == City::StGallen);
    assert(city_list()[206] == City::Stavanger);
    assert(city_list()[207] == City::Stockholm);
    assert(city_list()[208] == City::Strasbourg);
    assert(city_list()[209] == City::Stuttgart);
    assert(city_list()[210] == City::Swansea);
    assert(city_list()[211] == City::Szeged);
    assert(city_list()[212] == City::Tampere);
    assert(city_list()[213] == City::Taranto);
    assert(city_list()[214] == City::Terni);
    assert(city_list()[215] == City::TheHague);
    assert(city_list()[216] == City::Thessaloniki);
    assert(city_list()[217] == City::Timisoara);
    assert(city_list()[218] == City::Toledo);
    assert(city_list()[219] == City::Toulouse);
    assert(city_list()[220] == City::Tours);
    assert(city_list()[221] == City::Trento);
    assert(city_list()[222] == City::Trieste);
    assert(city_list()[223] == City::Trondheim);
    assert(city_list()[224] == City::Turin);
    assert(i == 200 || i == 201 || i == 202 || i == 203 || i == 204 || i == 205 || i == 206 || i == 207 || i == 208 || i == 209 || i == 210 || i == 211 || i == 212 || i == 213 || i == 214 || i == 215 || i == 216 || i == 217 || i == 218 || i == 219 || i == 220 || i == 221 || i == 222 || i == 223 || i == 224);
}

#[verifier::spinoff_prover]
proof fn lemma_city_position_9(i: int)
    requires
        225 <= i < 249,
    ensures
        city_index(city_list()[i]) == i,
{
    assert(city_list()[225] == City::Turku);
    assert(city_list()[226] == City::Uppsala);
    assert(city_list()[227] == City::Utrecht);
    assert(city_list()[228] == City::Valencia);
    assert(city_list()[229] == City::Valladolid);
    assert(city_list()[230] == City::Varna);
    assert(city_list()[231] == City::Venice);
    assert(city_list()[232] == City::Verona);
    assert(city_list()[233] == City::Versailles);
    assert(city_list()[234] == City::Vicenza);
    assert(city_list()[235] == City::Vienna);
    assert(city_list()[236] == City::Vigo);
    assert(city_list()[237] == City::Vasteras);
    assert(city_list()[238] == City::Warsaw);
    assert(city_list()[239] == City::Waterford);
    assert(city_list()[240] == City::Wroclaw);
    assert(city_list()[241] == City::Wurzburg);
    assert(city_list()[242] == City::York);
    assert(city_list()[243] == City::Zagreb);
    assert(city_list()[244] == City::Zaragoza);
    assert(city_list()[245] == City::Zurich);
    assert(city_list()[246] == City::Orebro);
    assert(city_list()[247] == City::CeskeBudejovice);
    assert(city_list()[248] == City::Lodz);
    assert(i == 225 || i == 226 || i == 227 || i == 228 || i == 229 || i == 230 || i == 231 || i == 232 || i == 233 || i == 234 || i == 235 || i == 236 || i == 237 || i == 238 || i == 239 || i == 240 || i == 241 || i == 242 || i == 243 || i == 244 || i == 245 || i == 246 || i == 247 || i == 248);
}

/// The list holds each a city at its position.
proof fn lemma_city_list_positions()
    ensures
        city_list().len() == 249,
        forall|i: int| 0 <= i < 249 ==> city_index(#[trigger] city_list()[i]) == i,
        forall|c: City| 0 <= #[trigger] city_index(c) < 249 && city_list()[city_index(c)] == c,
{
    assert forall|i: int| 0 <= i < 249 implies city_index(#[trigger] city_list()[i]) == i by {
        if i < 25 {
            lemma_city_position_0(i);
        } else if i < 50 {
            lemma_city_position_1(i);
        } else if i < 75 {
            lemma_city_position_2(i);
        } else if i < 100 {
            lemma_city_position_3(i);
        } else if i < 125 {
            lemma_city_position_4(i);
        } else if i < 150 {
            lemma_city_position_5(i);
        } else if i < 175 {
            lemma_city_position_6(i);
        } else if i < 200 {
            lemma_city_position_7(i);
        } else if i < 225 {
            lemma_city_position_8(i);
        } else {
            lemma_city_position_9(i);
        }
    }
    assert forall|c: City| 0 <= #[trigger] city_index(c) < 249 && city_list()[city_index(c)] == c by {
        lemma_city_listed(c);
    }
}

#[verifier::spinoff_prover]
proof fn lemma_city_listed(c: City)
    ensures
        0 <= city_index(c) < 249,
        city_list()[city_index(c)] == c,
{
    match c {
        City::ACoruna => { assert(city_list()[0] == City::ACoruna); },
        City::Aalborg => { assert(city_list()[1] == City::Aalborg); },
        City::Aarhus => { assert(city_list()[2] == City::Aarhus); },
        City::Alicante => { assert(city_list()[3] == City::Alicante); },
        City::Almeria => { assert(city_list()[4] == City::Almeria); },
        City::Amiens => { assert(city_list()[5] == City::Amiens); },
        City::Amsterdam => { assert(city_list()[6] == City::Amsterdam); },
        City::Ancona => { assert(city_list()[7] == City::Ancona); },
        City::Angers => { assert(city_list()[8] == City::Angers); },
        City::Annecy => { assert(city_list()[9] == City::Annecy); },
        City::Antwerp => { assert(city_list()[10] == City::Antwerp); },
        City::Arezzo => { assert(city_list()[11] == City::Arezzo); },
        City::Ashford => { assert(city_list()[12] == City::Ashford); },
        City::Augsburg => { assert(city_list()[13] == City::Augsburg); },
        City::Avignon => { assert(city_list()[14] == City::Avignon); },
        City::Badajoz => { assert(city_list()[15] == City::Badajoz); },
        City::Barcelona => { assert(city_list()[16] == City::Barcelona); },
        City::Bari => { assert(city_list()[17] == City::Bari); },
        City::Basel => { assert(city_list()[18] == City::Basel); },
        City::Belgrade => { assert(city_list()[19] == City::Belgrade); },
        City::Bergamo => { assert(city_list()[20] == City::Bergamo); },
        City::Bergen => { assert(city_list()[21] == City::Bergen); },
        City::Berlin => { assert(city_list()[22] == City::Berlin); },
        City::Bern => { assert(city_list()[23] == City::Bern); },
        City::Besancon => { assert(city_list()[24] == City::Besancon); },
        City::Bilbao => { assert(city_list()[25] == City::Bilbao); },
        City::Birmingham => { assert(city_list()[26] == City::Birmingham); },
        City::Bochum => { assert(city_list()[27] == City::Bochum); },
        City::Bologna => { assert(city_list()[28] == City::Bologna); },
        City::Bolzano => { assert(city_list()[29] == City::Bolzano); },
        City::Bonn => { assert(city_list()[30] == City::Bonn); },
        City::Bordeaux => { assert(city_list()[31] == City::Bordeaux); },
        City::Bratislava => { assert(city_list()[32] == City::Bratislava); },
        City::Brasov => { assert(city_list()[33] == City::Brasov); },
        City::Bremen => { assert(city_list()[34] == City::Bremen); },
        City::Brescia => { assert(city_list()[35] == City::Brescia); },
        City::Brest => { assert(city_list()[36] == City::Brest); },
        City::Brighton => { assert(city_list()[37] == City::Brighton); },
        City::Brindisi => { assert(city_list()[38] == City::Brindisi); },
        City::Bristol => { assert(city_list()[39] == City::Bristol); },
        City::Brno => { assert(city_list()[40] == City::Brno); },
        City::Bruges => { assert(city_list()[41] == City::Bruges); },
        City::Brussels => { assert(city_list()[42] == City::Brussels); },
        City::Bucharest => { assert(city_list()[43] == City::Bucharest); },
        City::Budapest => { assert(city_list()[44] == City::Budapest); },
        City::Burgas => { assert(city_list()[45] == City::Burgas); },
        City::Burgos => { assert(city_list()[46] == City::Burgos); },
        City::Calais => { assert(city_list()[47] == City::Calais); },
        City::Cambridge => { assert(city_list()[48] == City::Cambridge); },
        City::Cardiff => { assert(city_list()[49] == City::Cardiff); },
        City::Cartagena => { assert(city_list()[50] == City::Cartagena); },
        City::Catania => { assert(city_list()[51] == City::Catania); },
        City::Chambery => { assert(city_list()[52] == City::Chambery); },
        City::ClermontFerrand => { assert(city_list()[53] == City::ClermontFerrand); },
        City::ClujNapoca => { assert(city_list()[54] == City::ClujNapoca); },
        City::Cologne => { assert(city_list()[55] == City::Cologne); },
        City::Como => { assert(city_list()[56] == City::Como); },
        City::Copenhagen => { assert(city_list()[57] == City::Copenhagen); },
        City::Cork => { assert(city_list()[58] == City::Cork); },
        City::Cuenca => { assert(city_list()[59] == City::Cuenca); },
        City::Cadiz => { assert(city_list()[60] == City::Cadiz); },
        City::Cordoba => { assert(city_list()[61] == City::Cordoba); },
        City::Debrecen => { assert(city_list()[62] == City::Debrecen); },
        City::Derby => { assert(city_list()[63] == City::Derby); },
        City::Dijon => { assert(city_list()[64] == City::Dijon); },
        City::Dortmund => { assert(city_list()[65] == City::Dortmund); },
        City::Drammen => { assert(city_list()[66] == City::Drammen); },
        City::Dresden => { assert(city_list()[67] == City::Dresden); },
        City::Dublin => { assert(city_list()[68] == City::Dublin); },
        City::Dusseldorf => { assert(city_list()[69] == City::Dusseldorf); },
        City::Edinburgh => { assert(city_list()[70] == City::Edinburgh); },
        City::Eindhoven => { assert(city_list()[71] == City::Eindhoven); },
        City::Essen => { assert(city_list()[72] == City::Essen); },
        City::Exeter => { assert(city_list()[73] == City::Exeter); },
        City::Ferrara => { assert(city_list()[74] == City::Ferrara); },
        City::Florence => { assert(city_list()[75] == City::Florence); },
        City::Forli => { assert(city_list()[76] == City::Forli); },
        City::Frankfurt => { assert(city_list()[77] == City::Frankfurt); },
        City::Galway => { assert(city_list()[78] == City::Galway); },
        City::Gdansk => { assert(city_list()[79] == City::Gdansk); },
        City::Gdynia => { assert(city_list()[80] == City::Gdynia); },
        City::Geneva => { assert(city_list()[81] == City::Geneva); },
        City::Genoa => { assert(city_list()[82] == City::Genoa); },
        City::Ghent => { assert(city_list()[83] == City::Ghent); },
        City::Glasgow => { assert(city_list()[84] == City::Glasgow); },
        City::Gothenburg => { assert(city_list()[85] == City::Gothenburg); },
        City::Granada => { assert(city_list()[86] == City::Granada); },
        City::Graz => { assert(city_list()[87] == City::Graz); },
        City::Grenoble => { assert(city_list()[88] == City::Grenoble); },
        City::Hamburg => { assert(city_list()[89] == City::Hamburg); },
        City::Hannover => { assert(city_list()[90] == City::Hannover); },
        City::Heidelberg => { assert(city_list()[91] == City::Heidelberg); },
        City::Helsingborg => { assert(city_list()[92] == City::Helsingborg); },
        City::Helsinki => { assert(city_list()[93] == City::Helsinki); },
        City::Iasi => { assert(city_list()[94] == City::Iasi); },
        City::Innsbruck => { assert(city_list()[95] == City::Innsbruck); },
        City::Karlsruhe => { assert(city_list()[96] == City::Karlsruhe); },
        City::Katowice => { assert(city_list()[97] == City::Katowice); },
        City::Kiel => { assert(city_list()[98] == City::Kiel); },
        City::Kosice => { assert(city_list()[99] == City::Kosice); },
        City::Krakow => { assert(city_list()[100] == City::Krakow); },
        City::LAquila => { assert(city_list()[101] == City::LAquila); },
        City::LaRochelle => { assert(city_list()[102] == City::LaRochelle); },
        City::LaSpezia => { assert(city_list()[103] == City::LaSpezia); },
        City::Lausanne => { assert(city_list()[104] == City::Lausanne); },
        City::LeMans => { assert(city_list()[105] == City::LeMans); },
        City::Leeds => { assert(city_list()[106] == City::Leeds); },
        City::Leicester => { assert(city_list()[107] == City::Leicester); },
        City::Leipzig => { assert(city_list()[108] == City::Leipzig); },
        City::Lille => { assert(city_list()[109] == City::Lille); },
        City::Limerick => { assert(city_list()[110] == City::Limerick); },
        City::Limoges => { assert(city_list()[111] == City::Limoges); },
        City::Linkoping => { assert(city_list()[112] == City::Linkoping); },
        City::Linz => { assert(city_list()[113] == City::Linz); },
        City::Lisbon => { assert(city_list()[114] == City::Lisbon); },
        City::Liverpool => { assert(city_list()[115] == City::Liverpool); },
        City::Livorno => { assert(city_list()[116] == City::Livorno); },
        City::Liege => { assert(city_list()[117] == City::Liege); },
        City::Ljubljana => { assert(city_list()[118] == City::Ljubljana); },
        City::Logrono => { assert(city_list()[119] == City::Logrono); },
        City::London => { assert(city_list()[120] == City::London); },
        City::Lublin => { assert(city_list()[121] == City::Lublin); },
        City::Lucerne => { assert(city_list()[122] == City::Lucerne); },
        City::Lugano => { assert(city_list()[123] == City::Lugano); },
        City::Lund => { assert(city_list()[124] == City::Lund); },
        City::Lyon => { assert(city_list()[125] == City::Lyon); },
        City::Madrid => { assert(city_list()[126] == City::Madrid); },
        City::Malmo => { assert(city_list()[127] == City::Malmo); },
        City::Manchester => { assert(city_list()[128] == City::Manchester); },
        City::Mannheim => { assert(city_list()[129] == City::Mannheim); },
        City::Maribor => { assert(city_list()[130] == City::Maribor); },
        City::Marseille => { assert(city_list()[131] == City::Marseille); },
        City::Messina => { assert(city_list()[132] == City::Messina); },
        City::Metz => { assert(city_list()[133] == City::Metz); },
        City::Milan => { assert(city_list()[134] == City::Milan); },
        City::Modena => { assert(city_list()[135] == City::Modena); },
        City::Montpellier => { assert(city_list()[136] == City::Montpellier); },
        City::Mostar => { assert(city_list()[137] == City::Mostar); },
        City::Mulhouse => { assert(city_list()[138] == City::Mulhouse); },
        City::Munich => { assert(city_list()[139] == City::Munich); },
        City::Murcia => { assert(city_list()[140] == City::Murcia); },
        City::Malaga => { assert(city_list()[141] == City::Malaga); },
        City::Nancy => { assert(city_list()[142] == City::Nancy); },
        City::Nantes => { assert(city_list()[143] == City::Nantes); },
        City::Naples => { assert(city_list()[144] == City::Naples); },
        City::Narbonne => { assert(city_list()[145] == City::Narbonne); },
        City::Newcastle => { assert(city_list()[146] == City::Newcastle); },
        City::Nice => { assert(city_list()[147] == City::Nice); },
        City::Nis => { assert(city_list()[148] == City::Nis); },
        City::Norrkoping => { assert(city_list()[149] == City::Norrkoping); },
        City::Nottingham => { assert(city_list()[150] == City::Nottingham); },
        City::NoviSad => { assert(city_list()[151] == City::NoviSad); },
        City::Nuremberg => { assert(city_list()[152] == City::Nuremberg); },
        City::Nimes => { assert(city_list()[153] == City::Nimes); },
        City::Odense => { assert(city_list()[154] == City::Odense); },
        City::Oslo => { assert(city_list()[155] == City::Oslo); },
        City::Ostrava => { assert(city_list()[156] == City::Ostrava); },
        City::Oulu => { assert(city_list()[157] == City::Oulu); },
        City::Oviedo => { assert(city_list()[158] == City::Oviedo); },
        City::Oxford => { assert(city_list()[159] == City::Oxford); },
        City::Padua => { assert(city_list()[160] == City::Padua); },
        City::Palermo => { assert(city_list()[161] == City::Palermo); },
        City::Pamplona => { assert(city_list()[162] == City::Pamplona); },
        City::Paris => { assert(city_list()[163] == City::Paris); },
        City::Parma => { assert(city_list()[164] == City::Parma); },
        City::Perpignan => { assert(city_list()[165] == City::Perpignan); },
        City::Perugia => { assert(city_list()[166] == City::Perugia); },
        City::Piacenza => { assert(city_list()[167] == City::Piacenza); },
        City::Pisa => { assert(city_list()[168] == City::Pisa); },
        City::Plovdiv => { assert(city_list()[169] == City::Plovdiv); },
        City::Plymouth => { assert(city_list()[170] == City::Plymouth); },
        City::Plzen => { assert(city_list()[171] == City::Plzen); },
        City::Poitiers => { assert(city_list()[172] == City::Poitiers); },
        City::Porto => { assert(city_list()[173] == City::Porto); },
        City::Portsmouth => { assert(city_list()[174] == City::Portsmouth); },
        City::Potsdam => { assert(city_list()[175] == City::Potsdam); },
        City::Poznan => { assert(city_list()[176] == City::Poznan); },
        City::Prague => { assert(city_list()[177] == City::Prague); },
        City::Pecs => { assert(city_list()[178] == City::Pecs); },
        City::Ravenna => { assert(city_list()[179] == City::Ravenna); },
        City::Reading => { assert(city_list()[180] == City::Reading); },
        City::Regensburg => { assert(city_list()[181] == City::Regensburg); },
        City::ReggioCalabria => { assert(city_list()[182] == City::ReggioCalabria); },
        City::ReggioEmilia => { assert(city_list()[183] == City::ReggioEmilia); },
        City::Reims => { assert(city_list()[184] == City::Reims); },
        City::Rennes => { assert(city_list()[185] == City::Rennes); },
        City::Rijeka => { assert(city_list()[186] == City::Rijeka); },
        City::Rimini => { assert(city_list()[187] == City::Rimini); },
        City::Rome => { assert(city_list()[188] == City::Rome); },
        City::Rostock => { assert(city_list()[189] == City::Rostock); },
        City::Rotterdam => { assert(city_list()[190] == City::Rotterdam); },
        City::Rouen => { assert(city_list()[191] == City::Rouen); },
        City::Salamanca => { assert(city_list()[192] == City::Salamanca); },
        City::Salerno => { assert(city_list()[193] == City::Salerno); },
        City::Salzburg => { assert(city_list()[194] == City::Salzburg); },
        City::SanSebastian => { assert(city_list()[195] == City::SanSebastian); },
        City::Santander => { assert(city_list()[196] == City::Santander); },
        City::SantiagoDeCompostela => { assert(city_list()[197] == City::SantiagoDeCompostela); },
        City::Sarajevo => { assert(city_list()[198] == City::Sarajevo); },
        City::Seville => { assert(city_list()[199] == City::Seville); },
        City::Sheffield => { assert(city_list()[200] == City::Sheffield); },
        City::Sofia => { assert(city_list()[201] == City::Sofia); },
        City::Sopot => { assert(city_list()[202] == City::Sopot); },
        City::Southampton => { assert(city_list()[203] == City::Southampton); },
        City::Split => { assert(city_list()[204] == City::Split); },
        City::StGallen => { assert(city_list()[205] == City::StGallen); },
        City::Stavanger => { assert(city_list()[206] == City::Stavanger); },
        City::Stockholm => { assert(city_list()[207] == City::Stockholm); },
        City::Strasbourg => { assert(city_list()[208] == City::Strasbourg); },
        City::Stuttgart => { assert(city_list()[209] == City::Stuttgart); },
        City::Swansea => { assert(city_list()[210] == City::Swansea); },
        City::Szeged => { assert(city_list()[211] == City::Szeged); },
        City::Tampere => { assert(city_list()[212] == City::Tampere); },
        City::Taranto => { assert(city_list()[213] == City::Taranto); },
        City::Terni => { assert(city_list()[214] == City::Terni); },
        City::TheHague => { assert(city_list()[215] == City::TheHague); },
        City::Thessaloniki => { assert(city_list()[216] == City::Thessaloniki); },
        City::Timisoara => { assert(city_list()[217] == City::Timisoara); },
        City::Toledo => { assert(city_list()[218] == City::Toledo); },
        City::Toulouse => { assert(city_list()[219] == City::Toulouse); },
        City::Tours => { assert(city_list()[220] == City::Tours); },
        City::Trento => { assert(city_list()[221] == City::Trento); },
        City::Trieste => { assert(city_list()[222] == City::Trieste); },
        City::Trondheim => { assert(city_list()[223] == City::Trondheim); },
        City::Turin => { assert(city_list()[224] == City::Turin); },
        City::Turku => { assert(city_list()[225] == City::Turku); },
        City::Uppsala => { assert(city_list()[226] == City::Uppsala); },
        City::Utrecht => { assert(city_list()[227] == City::Utrecht); },
        City::Valencia => { assert(city_list()[228] == City::Valencia); },
        City::Valladolid => { assert(city_list()[229] == City::Valladolid); },
        City::Varna => { assert(city_list()[230] == City::Varna); },
        City::Venice => { assert(city_list()[231] == City::Venice); },
        City::Verona => { assert(city_list()[232] == City::Verona); },
        City::Versailles => { assert(city_list()[233] == City::Versailles); },
        City::Vicenza => { assert(city_list()[234] == City::Vicenza); },
        City::Vienna => { assert(city_list()[235] == City::Vienna); },
        City::Vigo => { assert(city_list()[236] == City::Vigo); },
        City::Vasteras => { assert(city_list()[237] == City::Vasteras); },
        City::Warsaw => { assert(city_list()[238] == City::Warsaw); },
        City::Waterford => { assert(city_list()[239] == City::Waterford); },
        City::Wroclaw => { assert(city_list()[240] == City::Wroclaw); },
        City::Wurzburg => { assert(city_list()[241] == City::Wurzburg); },
        City::York => { assert(city_list()[242] == City::York); },
        City::Zagreb => { assert(city_list()[243] == City::Zagreb); },
        City::Zaragoza => { assert(city_list()[244] == City::Zaragoza); },
        City::Zurich => { assert(city_list()[245] == City::Zurich); },
        City::Orebro => { assert(city_list()[246] == City::Orebro); },
        City::CeskeBudejovice => { assert(city_list()[247] == City::CeskeBudejovice); },
        City::Lodz => { assert(city_list()[248] == City::Lodz); },
    }
}

/// A list of the names of the catalogue's cities, in its order, names every
/// city exactly once.
#[verifier::spinoff_prover]
proof fn lemma_city_names_listed(r: Seq<&'static str>)
    requires
        r.len() == city_list().len(),
        forall|i: int| 0 <= i < r.len() ==> (#[trigger] r[i])@ == city_name(city_list()[i]),
    ensures
        forall|c: City| 0 <= #[trigger] city_index(c) < r.len() && r[city_index(c)]@ == city_name(c),
        forall|i: int, j: int| 0 <= i < j < r.len() ==> (#[trigger] r[i])@ != (#[trigger] r[j])@,
{
    lemma_city_list_positions();
    assert forall|c: City| 0 <= #[trigger] city_index(c) < r.len() && r[city_index(c)]@ == city_name(c) by {
        let k = city_index(c);
        assert(r[k]@ == city_name(city_list()[k]));
    }
    assert forall|i: int, j: int| 0 <= i < j < r.len() implies (#[trigger] r[i])@ != (#[trigger] r[j])@ by {
        if r[i]@ == r[j]@ {
            assert(r[i]@ == city_name(city_list()[i]));
            assert(r[j]@ == city_name(city_list()[j]));
            lemma_city_name_injective(city_list()[i], city_list()[j]);
            assert(city_index(city_list()[i]) == i);
            assert(city_index(city_list()[j]) == j);
        }
    }
}

/// Every city stands in the catalogue exactly once.
pub proof fn lemma_city_list_complete()
    ensures
        forall|c: City| #[trigger] city_list().contains(c),
        forall|i: int, j: int| 0 <= i < j < city_list().len() ==> #[trigger] city_list()[i] != #[trigger] city_list()[j],
{
    lemma_city_list_positions();
    assert forall|c: City| #[trigger] city_list().contains(c) by {
        assert(city_list()[city_index(c)] == c);
    }
}

} // verus!
