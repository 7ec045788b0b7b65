//! Worked examples of the romanization standard, checked through the
//! borrowing entry point.

use uaroman::romanize;

#[test]
fn lib_apostrophes() {
    assert_eq!(romanize("'Ярошенко' Згурський Знам'янка Ґорґани Згорани 'Розгон' Захар'їн"), "'Yaroshenko' Zghurskyi Znamianka Gorgany Zghorany 'Rozghon' Zakharin");
}

#[test]
fn rybchynskyi_stressed() {
    assert_eq!(romanize("Ю́рій Євге́нович Рибчи́нський"), "Yúrii Yevhénovych Rybchýnskyi");
}

#[test]
fn lib_a1() {
    assert_eq!(romanize("Алушта"), "Alushta");
}

#[test]
fn lib_a2() {
    assert_eq!(romanize("Андрій"), "Andrii");
}

#[test]
fn lib_b1() {
    assert_eq!(romanize("Борщагівка"), "Borshchahivka");
}

#[test]
fn lib_b2() {
    assert_eq!(romanize("Борисенко"), "Borysenko");
}

#[test]
fn lib_v1() {
    assert_eq!(romanize("Вінниця"), "Vinnytsia");
}

#[test]
fn lib_v2() {
    assert_eq!(romanize("Володимир"), "Volodymyr");
}

#[test]
fn lib_h1() {
    assert_eq!(romanize("Гадяч"), "Hadiach");
}

#[test]
fn lib_h2() {
    assert_eq!(romanize("Богдан"), "Bohdan");
}

#[test]
fn lib_h3() {
    assert_eq!(romanize("Згурський"), "Zghurskyi");
}

#[test]
fn lib_g1() {
    assert_eq!(romanize("Ґалаґан"), "Galagan");
}

#[test]
fn lib_g2() {
    assert_eq!(romanize("Ґорґани"), "Gorgany");
}

#[test]
fn lib_d1() {
    assert_eq!(romanize("Донецьк"), "Donetsk");
}

#[test]
fn lib_d2() {
    assert_eq!(romanize("Дмитро"), "Dmytro");
}

#[test]
fn lib_e1() {
    assert_eq!(romanize("Рівне"), "Rivne");
}

#[test]
fn lib_e2() {
    assert_eq!(romanize("Олег"), "Oleh");
}

#[test]
fn lib_e3() {
    assert_eq!(romanize("Есмань"), "Esman");
}

#[test]
fn lib_ye1() {
    assert_eq!(romanize("Єнакієве"), "Yenakiieve");
}

#[test]
fn lib_ye2() {
    assert_eq!(romanize("Гаєвич"), "Haievych");
}

#[test]
fn lib_ie1() {
    assert_eq!(romanize("Короп'є"), "Koropie");
}

#[test]
fn lib_zh1() {
    assert_eq!(romanize("Житомир"), "Zhytomyr");
}

#[test]
fn lib_zh2() {
    assert_eq!(romanize("Жанна"), "Zhanna");
}

#[test]
fn lib_zh3() {
    assert_eq!(romanize("Жежелів"), "Zhezheliv");
}

#[test]
fn lib_z1() {
    assert_eq!(romanize("Закарпаття"), "Zakarpattia");
}

#[test]
fn lib_z2() {
    assert_eq!(romanize("Казимирчук"), "Kazymyrchuk");
}

#[test]
fn lib_y1() {
    assert_eq!(romanize("Медвин"), "Medvyn");
}

#[test]
fn lib_y2() {
    assert_eq!(romanize("Михайленко"), "Mykhailenko");
}

#[test]
fn lib_i1() {
    assert_eq!(romanize("Іванків"), "Ivankiv");
}

#[test]
fn lib_i2() {
    assert_eq!(romanize("Іващенко"), "Ivashchenko");
}

#[test]
fn lib_yi1() {
    assert_eq!(romanize("Їжакевич"), "Yizhakevych");
}

#[test]
fn lib_yi2() {
    assert_eq!(romanize("Кадиївка"), "Kadyivka");
}

#[test]
fn lib_yi3() {
    assert_eq!(romanize("Мар'їне"), "Marine");
}

#[test]
fn lib_j1() {
    assert_eq!(romanize("Йосипівка"), "Yosypivka");
}

#[test]
fn lib_j2() {
    assert_eq!(romanize("Стрий"), "Stryi");
}

#[test]
fn lib_j3() {
    assert_eq!(romanize("Олексій"), "Oleksii");
}

#[test]
fn lib_k1() {
    assert_eq!(romanize("Київ"), "Kyiv");
}

#[test]
fn lib_k2() {
    assert_eq!(romanize("Коваленко"), "Kovalenko");
}

#[test]
fn lib_l1() {
    assert_eq!(romanize("Лебедин"), "Lebedyn");
}

#[test]
fn lib_l2() {
    assert_eq!(romanize("Леонід"), "Leonid");
}

#[test]
fn lib_m1() {
    assert_eq!(romanize("Миколаїв"), "Mykolaiv");
}

#[test]
fn lib_m2() {
    assert_eq!(romanize("Маринич"), "Marynych");
}

#[test]
fn lib_n1() {
    assert_eq!(romanize("Ніжин"), "Nizhyn");
}

#[test]
fn lib_n2() {
    assert_eq!(romanize("Наталія"), "Nataliia");
}

#[test]
fn lib_o1() {
    assert_eq!(romanize("Одеса"), "Odesa");
}

#[test]
fn lib_o2() {
    assert_eq!(romanize("Онищенко"), "Onyshchenko");
}

#[test]
fn lib_p1() {
    assert_eq!(romanize("Полтава"), "Poltava");
}

#[test]
fn lib_p2() {
    assert_eq!(romanize("Петро"), "Petro");
}

#[test]
fn lib_r1() {
    assert_eq!(romanize("Решетилівка"), "Reshetylivka");
}

#[test]
fn lib_r2() {
    assert_eq!(romanize("Рибчинський"), "Rybchynskyi");
}

#[test]
fn lib_s1() {
    assert_eq!(romanize("Суми"), "Sumy");
}

#[test]
fn lib_s2() {
    assert_eq!(romanize("Соломія"), "Solomiia");
}

#[test]
fn lib_t1() {
    assert_eq!(romanize("Тернопіль"), "Ternopil");
}

#[test]
fn lib_t2() {
    assert_eq!(romanize("Троць"), "Trots");
}

#[test]
fn lib_u1() {
    assert_eq!(romanize("Ужгород"), "Uzhhorod");
}

#[test]
fn lib_u2() {
    assert_eq!(romanize("Уляна"), "Uliana");
}

#[test]
fn lib_f1() {
    assert_eq!(romanize("Фастів"), "Fastiv");
}

#[test]
fn lib_f2() {
    assert_eq!(romanize("Філіпчук"), "Filipchuk");
}

#[test]
fn lib_kh1() {
    assert_eq!(romanize("Харків"), "Kharkiv");
}

#[test]
fn lib_kh2() {
    assert_eq!(romanize("Христина"), "Khrystyna");
}

#[test]
fn lib_ts1() {
    assert_eq!(romanize("Біла Церква"), "Bila Tserkva");
}

#[test]
fn lib_ts2() {
    assert_eq!(romanize("Стеценко"), "Stetsenko");
}

#[test]
fn lib_ch1() {
    assert_eq!(romanize("Чернівці"), "Chernivtsi");
}

#[test]
fn lib_ch2() {
    assert_eq!(romanize("Шевченко"), "Shevchenko");
}

#[test]
fn lib_sh1() {
    assert_eq!(romanize("Шостка"), "Shostka");
}

#[test]
fn lib_sh2() {
    assert_eq!(romanize("Кишеньки"), "Kyshenky");
}

#[test]
fn lib_shch1() {
    assert_eq!(romanize("Щербухи"), "Shcherbukhy");
}

#[test]
fn lib_shch2() {
    assert_eq!(romanize("Гоща"), "Hoshcha");
}

#[test]
fn lib_shch3() {
    assert_eq!(romanize("Гаращенко"), "Harashchenko");
}

#[test]
fn lib_yu1() {
    assert_eq!(romanize("Юрій"), "Yurii");
}

#[test]
fn lib_iu1() {
    assert_eq!(romanize("Корюківка"), "Koriukivka");
}

#[test]
fn lib_ya1() {
    assert_eq!(romanize("Яготин"), "Yahotyn");
}

#[test]
fn lib_ya2() {
    assert_eq!(romanize("Ярошенко"), "Yaroshenko");
}

#[test]
fn lib_ia1() {
    assert_eq!(romanize("Костянтин"), "Kostiantyn");
}

#[test]
fn lib_ia2() {
    assert_eq!(romanize("Знам'янка"), "Znamianka");
}

#[test]
fn lib_ia3() {
    assert_eq!(romanize("Феодосія"), "Feodosiia");
}
