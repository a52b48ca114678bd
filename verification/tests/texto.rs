use fundamentos::escopo::rotula;
use fundamentos::saida::Saida;
use fundamentos::texto::{anexa_decimal, anexa_digitos, mesmo_texto, texto_digito};

fn decimal_de(n: i64) -> String {
    let mut s = String::new();
    anexa_decimal(&mut s, n);
    s
}

#[test]
fn cada_digito_tem_seu_texto() {
    let esperado = ["0", "1", "2", "3", "4", "5", "6", "7", "8", "9"];
    for d in 0u8..=9 {
        assert_eq!(texto_digito(d), esperado[d as usize]);
    }
}

#[test]
fn digitos_de_um_natural() {
    let mut s = String::new();
    anexa_digitos(&mut s, 0);
    assert_eq!(s, "0");
    let mut s = String::new();
    anexa_digitos(&mut s, 9);
    assert_eq!(s, "9");
    let mut s = String::new();
    anexa_digitos(&mut s, 10);
    assert_eq!(s, "10");
    let mut s = String::new();
    anexa_digitos(&mut s, 1005);
    assert_eq!(s, "1005");
    let mut s = String::new();
    anexa_digitos(&mut s, u64::MAX);
    assert_eq!(s, "18446744073709551615");
}

#[test]
fn digitos_vao_depois_do_que_ja_estava() {
    let mut s = String::from("n = ");
    anexa_digitos(&mut s, 42);
    assert_eq!(s, "n = 42");
    anexa_decimal(&mut s, -7);
    assert_eq!(s, "n = 42-7");
}

#[test]
fn decimal_de_inteiros_com_sinal() {
    assert_eq!(decimal_de(0), "0");
    assert_eq!(decimal_de(1), "1");
    assert_eq!(decimal_de(-1), "-1");
    assert_eq!(decimal_de(30), "30");
    assert_eq!(decimal_de(-300), "-300");
    assert_eq!(decimal_de(2147483647), "2147483647");
    assert_eq!(decimal_de(-2147483648), "-2147483648");
}

#[test]
fn decimal_nos_extremos() {
    assert_eq!(decimal_de(i64::MAX), "9223372036854775807");
    assert_eq!(decimal_de(i64::MIN), "-9223372036854775808");
    assert_eq!(decimal_de(i64::MIN + 1), "-9223372036854775807");
}

#[test]
fn decimal_concorda_com_a_formatacao_padrao() {
    let amostras = [0i64, 5, 9, 10, 11, 99, 100, 101, 999, 1000, 123456789, -9, -10, -99, -100];
    for n in amostras {
        assert_eq!(decimal_de(n), format!("{}", n));
    }
}

#[test]
fn rotula_junta_rotulo_e_valor() {
    assert_eq!(rotula("Soma = ", 30), "Soma = 30");
    assert_eq!(rotula("", -4), "-4");
    assert_eq!(rotula("fora a = ", 123), "fora a = 123");
}

#[test]
fn saida_nova_esta_vazia() {
    let s = Saida::new();
    assert_eq!(s.len(), 0);
    assert_eq!(s.into_linhas(), Vec::<String>::new());
}

#[test]
fn saida_guarda_as_linhas_em_ordem() {
    let mut s = Saida::new();
    s.escreve(String::from("primeira"));
    s.escreve(String::from("segunda"));
    s.escreve(String::from(""));
    assert_eq!(s.len(), 3);
    assert_eq!(s.linha(0), "primeira");
    assert_eq!(s.linha(1), "segunda");
    assert_eq!(s.linha(2), "");
    assert_eq!(s.into_linhas(), vec!["primeira", "segunda", ""]);
}

#[test]
fn mesmo_texto_compara_o_conteudo() {
    assert!(mesmo_texto("Rust", "Rust"));
    assert!(mesmo_texto("", ""));
    assert!(mesmo_texto("é", "é"));
    assert!(!mesmo_texto("Rust", "rust"));
    assert!(!mesmo_texto("C", "C++"));
    assert!(!mesmo_texto("", "C"));
}
