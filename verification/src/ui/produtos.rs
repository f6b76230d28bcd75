//! A tela de produtos: lista com busca, cadastro, edição e exclusão.

use vstd::prelude::*;

use crate::dominio::{Categoria, Produto};
use crate::estoque::{
    spec_validar_campos, spec_validar_produto, validar_campos, validar_produto, ComparacaoPrecos,
    ErroEstoque,
};
use crate::texto::{
    aparado, aparar, contem, contem_spec, decimal, eh_espaco, em_minusculas,
    lei_decimal_lido_de_volta, ler_i64, lema_aparado_sem_espacos_nas_pontas, lema_nao_eh_espaco,
    leitura_i64, minusculas, ocorre_em, texto_decimal,
};

use super::{aviso_eh, App};

verus! {

/// O que a tela de produtos mostra.
#[derive(Clone, Copy, Debug, PartialEq, Eq, Structural)]
pub enum ModoProdutos {
    Lista,
    Cadastro,
    Edicao,
}

/// O formulário de produto, com os campos como foram digitados.
#[derive(Clone)]
pub struct ProdutoForm {
    pub nome: String,
    pub codigo_de_barras: String,
    pub categoria_id: i64,
    pub preco_custo: String,
    pub preco_de_venda: String,
    pub estoque_minimo: String,
    pub quantidade_atual: String,
}

impl ProdutoForm {
    /// O formulário em branco.
    pub open spec fn em_branco(self) -> bool {
        &&& self.nome@ == Seq::<char>::empty()
        &&& self.codigo_de_barras@ == Seq::<char>::empty()
        &&& self.categoria_id == 0
        &&& self.preco_custo@ == Seq::<char>::empty()
        &&& self.preco_de_venda@ == Seq::<char>::empty()
        &&& self.estoque_minimo@ == Seq::<char>::empty()
        &&& self.quantidade_atual@ == Seq::<char>::empty()
    }
}

impl Default for ProdutoForm {
    fn default() -> (r: Self)
        ensures
            r.em_branco(),
    {
        ProdutoForm {
            nome: String::new(),
            codigo_de_barras: String::new(),
            categoria_id: 0,
            preco_custo: String::new(),
            preco_de_venda: String::new(),
            estoque_minimo: String::new(),
            quantidade_atual: String::new(),
        }
    }
}

/// O estado da tela de produtos.
pub struct ProdutosState {
    pub produtos: Vec<Produto>,
    pub categorias: Vec<Categoria>,
    pub filtro: String,
    pub filtro_categoria_id: i64,
    pub modo: ModoProdutos,
    pub form: ProdutoForm,
    pub selecionado_id: Option<i64>,
    pub confirmar_delete: bool,
    pub erro_form: Option<String>,
    pub carregado: bool,
}

impl ProdutosState {
    /// O estado antes de a tela ser aberta.
    pub open spec fn inicial(self) -> bool {
        &&& self.produtos@.len() == 0
        &&& self.categorias@.len() == 0
        &&& self.filtro@ == Seq::<char>::empty()
        &&& self.filtro_categoria_id == 0
        &&& self.modo == ModoProdutos::Lista
        &&& self.form.em_branco()
        &&& self.selecionado_id is None
        &&& !self.confirmar_delete
        &&& self.erro_form is None
        &&& !self.carregado
    }
}

impl Default for ProdutosState {
    fn default() -> (r: Self)
        ensures
            r.inicial(),
    {
        ProdutosState {
            produtos: Vec::new(),
            categorias: Vec::new(),
            filtro: String::new(),
            filtro_categoria_id: 0,
            modo: ModoProdutos::Lista,
            form: ProdutoForm::default(),
            selecionado_id: None,
            confirmar_delete: false,
            erro_form: None,
            carregado: false,
        }
    }
}

/// Um produto passa na busca quando o filtro (já em minúsculas) é vazio ou
/// aparece no nome em minúsculas ou no código de barras, e quando a categoria
/// pedida é 0 (todas) ou a do produto.
pub open spec fn passa_no_filtro(p: Produto, filtro: Seq<char>, categoria_id: i64) -> bool {
    let texto_ok = filtro.len() == 0 || contem_spec(minusculas(p.nome@), filtro) || contem_spec(
        p.codigo_de_barras@,
        filtro,
    );
    let categoria_ok = categoria_id == 0 || p.categoria_id == categoria_id;
    texto_ok && categoria_ok
}

/// Os índices dos produtos que passam na busca pelo texto `filtro` e pela
/// categoria `categoria_id`, em ordem crescente.
pub fn indices_filtrados(produtos: &Vec<Produto>, filtro: &str, categoria_id: i64) -> (r: Vec<usize>)
    ensures
        forall|k: int| 0 <= k < r@.len() ==> #[trigger] r@[k] < produtos@.len(),
        forall|a: int, b: int| 0 <= a < b < r@.len() ==> r@[a] < r@[b],
        forall|i: int|
            0 <= i < produtos@.len() ==> (r@.contains(i as usize) <==> passa_no_filtro(
                #[trigger] produtos@[i],
                minusculas(filtro@),
                categoria_id,
            )),
        filtro@.len() == 0 ==> minusculas(filtro@).len() == 0,
        filtro@.len() == 0 ==> forall|i: int|
            0 <= i < produtos@.len() ==> (r@.contains(i as usize) <==> (categoria_id == 0
                || #[trigger] produtos@[i].categoria_id == categoria_id)),
        filtro@.len() == 0 && categoria_id == 0 ==> r@ == Seq::new(
            produtos@.len(),
            |i: int| i as usize,
        ),
{
    let f = em_minusculas(filtro);
    let mut r: Vec<usize> = Vec::new();
    let n = produtos.len();
    let mut i: usize = 0;
    while i < n
        invariant
            n == produtos@.len(),
            i <= n,
            f@ == minusculas(filtro@),
            forall|k: int| 0 <= k < r@.len() ==> #[trigger] r@[k] < i,
            forall|a: int, b: int| 0 <= a < b < r@.len() ==> r@[a] < r@[b],
            forall|j: int|
                0 <= j < i ==> (r@.contains(j as usize) <==> passa_no_filtro(
                    #[trigger] produtos@[j],
                    minusculas(filtro@),
                    categoria_id,
                )),
        decreases n - i,
    {
        let p = &produtos[i];
        let texto_ok = f.as_str().is_empty() || contem(
            em_minusculas(p.nome.as_str()).as_str(),
            f.as_str(),
        ) || contem(p.codigo_de_barras.as_str(), f.as_str());
        let categoria_ok = categoria_id == 0 || p.categoria_id == categoria_id;
        let ghost antes = r@;
        if texto_ok && categoria_ok {
            r.push(i);
        }
        assert forall|j: int|
            0 <= j < i + 1 implies (r@.contains(j as usize) <==> passa_no_filtro(
            #[trigger] produtos@[j],
            minusculas(filtro@),
            categoria_id,
        )) by {
            if j < i {
                if r@.contains(j as usize) && !antes.contains(j as usize) {
                    let k = choose|k: int| 0 <= k < r@.len() && r@[k] == j as usize;
                    assert(k == antes.len());
                }
                if antes.contains(j as usize) {
                    let k = choose|k: int| 0 <= k < antes.len() && antes[k] == j as usize;
                    assert(r@[k] == j as usize);
                }
            } else {
                if r@.contains(j as usize) && !(texto_ok && categoria_ok) {
                    let k = choose|k: int| 0 <= k < r@.len() && r@[k] == j as usize;
                    assert(antes[k] < i);
                }
                if texto_ok && categoria_ok {
                    assert(r@[antes.len() as int] == i);
                }
            }
        }
        i = i + 1;
    }
    proof {
        if filtro@.len() == 0 && categoria_id == 0 {
            assert forall|j: usize| j < n implies #[trigger] r@.contains(j) by {
                assert(passa_no_filtro(produtos@[j as int], minusculas(filtro@), categoria_id));
            }
            lema_todos_os_indices(r@, n as int);
        }
    }
    r
}

/// Uma lista crescente de índices abaixo de `n` que contém todos eles é
/// `0, 1, ..., n - 1`.
proof fn lema_todos_os_indices(r: Seq<usize>, n: int)
    requires
        0 <= n <= usize::MAX + 1,
        forall|k: int| 0 <= k < r.len() ==> #[trigger] r[k] < n,
        forall|a: int, b: int| 0 <= a < b < r.len() ==> r[a] < r[b],
        forall|j: usize| j < n ==> #[trigger] r.contains(j),
    ensures
        r == Seq::new(n as nat, |i: int| i as usize),
    decreases n,
{
    if n > 0 {
        assert(r.contains((n - 1) as usize));
        let k = choose|k: int| 0 <= k < r.len() && r[k] == (n - 1) as usize;
        if k < r.len() - 1 {
            assert(r[k] < r[r.len() - 1]);
        }
        assert(k == r.len() - 1);
        let r2 = r.drop_last();
        assert forall|i: usize| i < n - 1 implies #[trigger] r2.contains(i) by {
            assert(r.contains(i));
            let j = choose|j: int| 0 <= j < r.len() && r[j] == i;
            assert(j != r.len() - 1);
            assert(r2[j] == i);
        }
        lema_todos_os_indices(r2, n - 1);
        assert(Seq::new((n - 1) as nat, |i: int| i as usize).len() == n - 1);
        assert(r2.len() == n - 1);
        assert(r.len() == n);
        assert forall|i: int| 0 <= i < n implies r[i] == i as usize by {
            if i < n - 1 {
                assert(r[i] == r2[i]);
            }
        }
        assert(r =~= Seq::new(n as nat, |i: int| i as usize));
    } else {
        if r.len() > 0 {
            assert(r[0] < n);
        }
        assert(r =~= Seq::new(0, |i: int| i as usize));
    }
}

/// Um inteiro digitado (sem espaços nas pontas), ou 0 quando não é um
/// inteiro.
pub open spec fn spec_inteiro_ou_zero(s: Seq<char>) -> i64 {
    match leitura_i64(aparado(s)) {
        Some(v) => v,
        None => 0,
    }
}

/// Um número escrito em decimal, como `abrir_edicao` escreve os campos
/// inteiros, é lido de volta como o mesmo número.
pub proof fn lei_inteiro_ou_zero_de_decimal(n: i64)
    ensures
        spec_inteiro_ou_zero(decimal(n as int, 0)) == n,
{
    let s = decimal(n as int, 0);
    lei_decimal_lido_de_volta(n);
    lema_nao_eh_espaco(s[0]);
    lema_nao_eh_espaco(s.last());
    lema_aparado_sem_espacos_nas_pontas(s);
}

/// Lê um campo inteiro do formulário; o que não é inteiro vale 0. Um número
/// escrito em decimal, como `abrir_edicao` escreve os campos inteiros, é lido
/// de volta como o mesmo número.
pub fn inteiro_ou_zero(s: &str) -> (r: i64)
    ensures
        r == spec_inteiro_ou_zero(s@),
        forall|n: i64| s@ == decimal(n as int, 0) ==> r == n,
{
    proof {
        assert forall|n: i64| s@ == decimal(n as int, 0) implies spec_inteiro_ou_zero(s@) == n by {
            lei_inteiro_ou_zero_de_decimal(n);
        }
    }
    let t = aparar(s);
    match ler_i64(t.as_str()) {
        Some(v) => v,
        None => 0,
    }
}

impl ProdutoForm {
    /// Os campos obrigatórios de texto (nome e código de barras, sem espaços
    /// nas pontas); sem eles ou sem categoria, a mensagem de erro.
    pub fn campos_obrigatorios(&self) -> (r: Result<(String, String), String>)
        ensures
            ({
                let nome = aparado(self.nome@);
                let codigo = aparado(self.codigo_de_barras@);
                if nome.len() == 0 || codigo.len() == 0 || self.categoria_id == 0 {
                    r matches Err(m) && m@ == "Preencha todos os campos obrigatórios."@
                } else {
                    r matches Ok(c) && c.0@ == nome && c.1@ == codigo
                }
            }),
    {
        let nome = aparar(self.nome.as_str());
        let codigo = aparar(self.codigo_de_barras.as_str());
        if nome.as_str().is_empty() || codigo.as_str().is_empty() || self.categoria_id == 0 {
            return Err(String::from_str("Preencha todos os campos obrigatórios."));
        }
        Ok((nome, codigo))
    }
}

/// O produto que o formulário de `s` grava: o selecionado, quando se edita;
/// 0, um produto novo, quando se cadastra.
pub open spec fn spec_id_em_edicao(s: ProdutosState) -> i64 {
    if s.modo == ModoProdutos::Edicao {
        match s.selecionado_id {
            Some(id) => id,
            None => 0,
        }
    } else {
        0
    }
}

impl ProdutosState {
    /// O produto que o formulário grava: o selecionado, quando se edita; 0,
    /// um produto novo, quando se cadastra.
    pub fn id_em_edicao(&self) -> (r: i64)
        ensures
            r == spec_id_em_edicao(*self),
    {
        if self.modo == ModoProdutos::Edicao {
            match self.selecionado_id {
                Some(id) => id,
                None => 0,
            }
        } else {
            0
        }
    }
}

/// `a1` é `a0` depois de aplicar o resultado de gravar o produto `id` (0 para
/// um novo): num sucesso, o aviso e a volta à lista; numa falha, a mensagem no
/// formulário.
pub open spec fn concluido(a0: App, id: i64, resultado: Result<(), String>, a1: App) -> bool {
    match resultado {
        Ok(_) => {
            &&& aviso_eh(
                a1,
                if id == 0 {
                    "Produto cadastrado com sucesso."@
                } else {
                    "Produto atualizado com sucesso."@
                },
                false,
            )
            &&& a1 == App {
                feedback: a1.feedback,
                produtos_state: ProdutosState {
                    modo: ModoProdutos::Lista,
                    erro_form: None,
                    ..a0.produtos_state
                },
                ..a0
            }
        },
        Err(m) => a1 == App {
            produtos_state: ProdutosState { erro_form: Some(m), ..a0.produtos_state },
            ..a0
        },
    }
}

/// O formulário de `s` está aberto para editar `p`, com os campos como
/// `abrir_edicao` os escreve.
pub open spec fn aberto_para_edicao(s: ProdutosState, p: Produto) -> bool {
    &&& s.modo == ModoProdutos::Edicao
    &&& s.selecionado_id == Some(p.id)
    &&& s.form.nome@ == p.nome@
    &&& s.form.codigo_de_barras@ == p.codigo_de_barras@
    &&& s.form.categoria_id == p.categoria_id
    &&& s.form.estoque_minimo@ == decimal(p.estoque_minimo as int, 0)
    &&& s.form.quantidade_atual@ == decimal(p.quantidade_atual as int, 0)
}

impl App {
    /// Abre o formulário de edição com os dados de `p`; os preços chegam já
    /// escritos com duas casas.
    pub fn abrir_edicao(&mut self, p: &Produto, preco_custo: String, preco_de_venda: String)
        ensures
            aberto_para_edicao(final(self).produtos_state, *p),
            ({
                let s = final(self).produtos_state;
                &&& s.form.nome@ == p.nome@
                &&& s.form.codigo_de_barras@ == p.codigo_de_barras@
                &&& s.form.categoria_id == p.categoria_id
                &&& s.form.preco_custo == preco_custo
                &&& s.form.preco_de_venda == preco_de_venda
                &&& s.form.estoque_minimo@ == decimal(p.estoque_minimo as int, 0)
                &&& s.form.quantidade_atual@ == decimal(p.quantidade_atual as int, 0)
                &&& *final(self) == App {
                    produtos_state: ProdutosState {
                        form: s.form,
                        selecionado_id: Some(p.id),
                        modo: ModoProdutos::Edicao,
                        erro_form: None,
                        ..old(self).produtos_state
                    },
                    ..*old(self)
                }
            }),
    {
        self.produtos_state.form = ProdutoForm {
            nome: p.nome.clone(),
            codigo_de_barras: p.codigo_de_barras.clone(),
            categoria_id: p.categoria_id,
            preco_custo,
            preco_de_venda,
            estoque_minimo: texto_decimal(p.estoque_minimo),
            quantidade_atual: texto_decimal(p.quantidade_atual),
        };
        self.produtos_state.selecionado_id = Some(p.id);
        self.produtos_state.modo = ModoProdutos::Edicao;
        self.produtos_state.erro_form = None;
    }

    /// Aplica o resultado de gravar o produto `id` (0 para um novo): em caso de
    /// sucesso avisa e volta à lista (que deve ser carregada de novo); numa
    /// falha mostra a mensagem no formulário.
    pub fn concluir_salvar_produto(&mut self, id: i64, resultado: Result<(), String>)
        ensures
            concluido(*old(self), id, resultado, *final(self)),
    {
        match resultado {
            Ok(_) => {
                if id == 0 {
                    self.set_feedback("Produto cadastrado com sucesso.", false);
                } else {
                    self.set_feedback("Produto atualizado com sucesso.", false);
                }
                self.produtos_state.modo = ModoProdutos::Lista;
                self.produtos_state.erro_form = None;
            },
            Err(m) => {
                self.produtos_state.erro_form = Some(m);
            },
        }
    }

    /// Aplica o resultado de excluir um produto.
    pub fn concluir_excluir_produto(&mut self, resultado: Result<(), String>)
        ensures
            (match resultado {
                Ok(_) => aviso_eh(*final(self), "Produto excluído."@, false),
                Err(_) => aviso_eh(*final(self), "Não foi possível excluir o produto."@, true),
            }),
            *final(self) == (App { feedback: final(self).feedback, ..*old(self) }),
    {
        match resultado {
            Ok(_) => self.set_feedback("Produto excluído.", false),
            Err(_) => self.set_feedback("Não foi possível excluir o produto.", true),
        }
    }
}

/// Os preços digitados, lidos em ponto flutuante pela aplicação: o custo que
/// não pôde ser lido, a venda que não pôde ser lida (com o custo lido), ou as
/// comparações dos dois preços lidos.
#[derive(Clone, Copy, Debug, PartialEq, Eq, Structural)]
pub enum LeituraPrecos {
    CustoInvalido,
    VendaInvalida,
    Lidos(ComparacaoPrecos),
}

/// O que gravar na tabela de produtos: um produto novo ou um existente
/// regravado.
#[derive(Clone, Debug)]
pub enum AcaoProduto {
    Inserir(Produto),
    Atualizar(Produto),
}

impl AcaoProduto {
    /// O produto a gravar.
    pub open spec fn produto(self) -> Produto {
        match self {
            AcaoProduto::Inserir(p) => p,
            AcaoProduto::Atualizar(p) => p,
        }
    }
}

/// `p` é o produto montado do formulário `f` para gravar com o código `id`:
/// nome e código de barras sem espaços nas pontas, os campos inteiros lidos
/// (0 quando não são inteiros) e o nome da categoria vazio.
pub open spec fn montado_do_form(p: Produto, f: ProdutoForm, id: i64) -> bool {
    &&& p.id == id
    &&& p.nome@ == aparado(f.nome@)
    &&& p.codigo_de_barras@ == aparado(f.codigo_de_barras@)
    &&& p.categoria_id == f.categoria_id
    &&& p.categoria_nome@ == Seq::<char>::empty()
    &&& p.estoque_minimo == spec_inteiro_ou_zero(f.estoque_minimo@)
    &&& p.quantidade_atual == spec_inteiro_ou_zero(f.quantidade_atual@)
}

/// A mensagem com que o formulário `f` é recusado antes de consultar o banco,
/// na ordem em que os erros são procurados: campos obrigatórios, preços que
/// não são números e, depois, as regras de `spec_validar_campos`. `None`
/// quando nada o recusa.
pub open spec fn erro_do_preparo(f: ProdutoForm, precos: LeituraPrecos) -> Option<Seq<char>> {
    if aparado(f.nome@).len() == 0 || aparado(f.codigo_de_barras@).len() == 0 || f.categoria_id
        == 0 {
        Some("Preencha todos os campos obrigatórios."@)
    } else {
        match precos {
            LeituraPrecos::CustoInvalido => Some("Preço de custo inválido."@),
            LeituraPrecos::VendaInvalida => Some("Preço de venda inválido."@),
            LeituraPrecos::Lidos(c) => if c.custo_nao_positivo {
                Some(ErroEstoque::PrecoCustoInvalido.texto())
            } else if c.venda_nao_supera_custo {
                Some(ErroEstoque::PrecoVendaMenorQueCusto.texto())
            } else if spec_inteiro_ou_zero(f.estoque_minimo@) < 0 {
                Some(ErroEstoque::EstoqueMinimoNegativo.texto())
            } else {
                None
            },
        }
    }
}

/// `a1` mostra a mensagem `m` no formulário de produto; o resto é `a0`.
pub open spec fn com_erro_no_form(a0: App, m: Seq<char>, a1: App) -> bool {
    &&& a1.produtos_state.erro_form matches Some(e) && e@ == m
    &&& a1 == App {
        produtos_state: ProdutosState {
            erro_form: a1.produtos_state.erro_form,
            ..a0.produtos_state
        },
        ..a0
    }
}

/// O primeiro passo de salvar o formulário de `a0`, com os preços lidos
/// `precos`: recusado, `r` é `None` e `a1` mostra a mensagem; aceito, `r` traz
/// o produto montado do formulário e as comparações de preço, e nada muda.
pub open spec fn preparado(
    a0: App,
    precos: LeituraPrecos,
    r: Option<(Produto, ComparacaoPrecos)>,
    a1: App,
) -> bool {
    let s = a0.produtos_state;
    match erro_do_preparo(s.form, precos) {
        Some(m) => r is None && com_erro_no_form(a0, m, a1),
        None => {
            &&& r matches Some(pc) && montado_do_form(pc.0, s.form, spec_id_em_edicao(s))
                && precos == LeituraPrecos::Lidos(pc.1)
            &&& a1 == a0
        },
    }
}

/// A ação que grava `p`: inserir quando o código é 0, regravar quando não é.
pub open spec fn acao_para(p: Produto) -> AcaoProduto {
    if p.id == 0 {
        AcaoProduto::Inserir(p)
    } else {
        AcaoProduto::Atualizar(p)
    }
}

/// O segundo passo de salvar, com `existente` o produto já cadastrado com o
/// código de barras de `p`: recusado por `spec_validar_produto`, `r` é `None`
/// e `a1` mostra a mensagem do erro; aceito, `r` é a ação que grava `p` e nada
/// muda.
pub open spec fn decidido(
    a0: App,
    p: Produto,
    precos: ComparacaoPrecos,
    existente: Option<Produto>,
    r: Option<AcaoProduto>,
    a1: App,
) -> bool {
    match spec_validar_produto(p, precos, existente) {
        Err(e) => r is None && com_erro_no_form(a0, e.texto(), a1),
        Ok(_) => r == Some(acao_para(p)) && a1 == a0,
    }
}

impl App {
    /// Confere o formulário de produto e monta o produto a gravar, sem
    /// consultar o banco: campos obrigatórios, preços lidos e as regras que
    /// não dependem de outros cadastros. Numa recusa, mostra a mensagem no
    /// formulário.
    pub fn preparar_produto(&mut self, precos: LeituraPrecos) -> (r: Option<(Produto, ComparacaoPrecos)>)
        ensures
            preparado(*old(self), precos, r, *final(self)),
    {
        let (nome, codigo) = match self.produtos_state.form.campos_obrigatorios() {
            Ok(c) => c,
            Err(m) => {
                self.produtos_state.erro_form = Some(m);
                return None;
            },
        };
        let c = match precos {
            LeituraPrecos::CustoInvalido => {
                self.produtos_state.erro_form = Some(String::from_str("Preço de custo inválido."));
                return None;
            },
            LeituraPrecos::VendaInvalida => {
                self.produtos_state.erro_form = Some(String::from_str("Preço de venda inválido."));
                return None;
            },
            LeituraPrecos::Lidos(c) => c,
        };
        let p = Produto {
            id: self.produtos_state.id_em_edicao(),
            nome,
            codigo_de_barras: codigo,
            categoria_id: self.produtos_state.form.categoria_id,
            categoria_nome: String::new(),
            estoque_minimo: inteiro_ou_zero(self.produtos_state.form.estoque_minimo.as_str()),
            quantidade_atual: inteiro_ou_zero(self.produtos_state.form.quantidade_atual.as_str()),
        };
        match validar_campos(&p, c) {
            Err(e) => {
                self.produtos_state.erro_form = Some(e.to_string());
                None
            },
            Ok(_) => Some((p, c)),
        }
    }

    /// Decide como gravar o produto preparado, dado o produto `existente` com
    /// o mesmo código de barras; numa recusa, mostra a mensagem no formulário.
    pub fn decidir_produto(
        &mut self,
        p: Produto,
        precos: ComparacaoPrecos,
        existente: &Option<Produto>,
    ) -> (r: Option<AcaoProduto>)
        ensures
            decidido(*old(self), p, precos, *existente, r, *final(self)),
    {
        match validar_produto(&p, precos, existente) {
            Err(e) => {
                self.produtos_state.erro_form = Some(e.to_string());
                None
            },
            Ok(_) => if p.id == 0 {
                Some(AcaoProduto::Inserir(p))
            } else {
                Some(AcaoProduto::Atualizar(p))
            },
        }
    }
}

/// A tabela de produtos `t`, por código, depois de executada a ação `acao`:
/// uma inserção ganha o código `novo_id` dado pelo banco; uma regravação
/// troca a linha do seu código, se ela existir, e não muda nada se não
/// existir.
pub open spec fn tabela_apos(t: Map<i64, Produto>, acao: AcaoProduto, novo_id: i64) -> Map<
    i64,
    Produto,
> {
    match acao {
        AcaoProduto::Inserir(p) => t.insert(novo_id, Produto { id: novo_id, ..p }),
        AcaoProduto::Atualizar(p) => if t.contains_key(p.id) {
            t.insert(p.id, p)
        } else {
            t
        },
    }
}

/// A tabela passou de `t0` a `t1` ao gravar: a ação decidida foi executada
/// quando o banco respondeu com sucesso; sem ação, ou numa falha do banco, a
/// tabela ficou como estava.
pub open spec fn tabela_gravada(
    t0: Map<i64, Produto>,
    decisao: Option<AcaoProduto>,
    resultado: Result<(), String>,
    novo_id: i64,
    t1: Map<i64, Produto>,
) -> bool {
    match decisao {
        Some(acao) => if resultado is Ok {
            t1 == tabela_apos(t0, acao, novo_id)
        } else {
            t1 == t0
        },
        None => t1 == t0,
    }
}

/// Salvar o formulário de `a0` deu certo: `af` é a lista com o aviso de
/// sucesso, e a tabela ganhou uma única linha nova, montada do formulário
/// (cadastro), ou teve regravada, com o formulário, a linha do produto editado
/// (edição; sem mudança se ela não existe mais).
pub open spec fn salvou(
    a0: App,
    af: App,
    t0: Map<i64, Produto>,
    novo_id: i64,
    t1: Map<i64, Produto>,
) -> bool {
    let s = a0.produtos_state;
    let id = spec_id_em_edicao(s);
    &&& af == App {
        feedback: af.feedback,
        produtos_state: ProdutosState { modo: ModoProdutos::Lista, erro_form: None, ..s },
        ..a0
    }
    &&& aviso_eh(
        af,
        if id == 0 {
            "Produto cadastrado com sucesso."@
        } else {
            "Produto atualizado com sucesso."@
        },
        false,
    )
    &&& if id == 0 {
        &&& !t0.contains_key(novo_id)
        &&& t1 == t0.insert(novo_id, t1[novo_id])
        &&& montado_do_form(t1[novo_id], s.form, novo_id)
    } else if t0.contains_key(id) {
        &&& t1 == t0.insert(id, t1[id])
        &&& montado_do_form(t1[id], s.form, id)
    } else {
        t1 == t0
    }
}

/// Salvar o formulário de `a0` foi recusado: `af` só difere de `a0` pela
/// mensagem de erro no formulário, e a tabela não mudou.
pub open spec fn recusou(a0: App, af: App, t0: Map<i64, Produto>, t1: Map<i64, Produto>) -> bool {
    &&& af.produtos_state.erro_form is Some
    &&& af == App {
        produtos_state: ProdutosState {
            erro_form: af.produtos_state.erro_form,
            ..a0.produtos_state
        },
        ..a0
    }
    &&& t1 == t0
}

/// Salvar um produto muda uma linha ou nada: preparado o formulário, decidida
/// a ação e aplicado o resultado do banco, ou a tabela ganhou exatamente uma
/// linha nova (cadastro) ou teve regravada a linha do produto editado, e a
/// tela voltou à lista com o aviso de sucesso; ou a tabela ficou como estava e
/// o formulário, no mesmo modo, mostra a mensagem de erro. O primeiro caso
/// acontece exatamente quando o preparo e a decisão aceitam e o banco grava.
pub proof fn lei_salvar_produto_uma_linha_ou_nada(
    a0: App,
    precos: LeituraPrecos,
    preparo: Option<(Produto, ComparacaoPrecos)>,
    a1: App,
    existente: Option<Produto>,
    decisao: Option<AcaoProduto>,
    a2: App,
    resultado: Result<(), String>,
    af: App,
    t0: Map<i64, Produto>,
    novo_id: i64,
    t1: Map<i64, Produto>,
)
    requires
        preparado(a0, precos, preparo, a1),
        preparo is None ==> decisao is None && af == a1,
        preparo matches Some(pc) ==> decidido(a1, pc.0, pc.1, existente, decisao, a2),
        preparo is Some && decisao is None ==> af == a2,
        decisao matches Some(acao) ==> concluido(a2, acao.produto().id, resultado, af),
        tabela_gravada(t0, decisao, resultado, novo_id, t1),
        !t0.contains_key(novo_id),
    ensures
        salvou(a0, af, t0, novo_id, t1) || recusou(a0, af, t0, t1),
        salvou(a0, af, t0, novo_id, t1) <==> (decisao is Some && resultado is Ok),
{
    let s = a0.produtos_state;
    if let Some(pc) = preparo {
        let p = pc.0;
        assert(montado_do_form(p, s.form, spec_id_em_edicao(s)));
        assert(a1 == a0);
        if let Some(acao) = decisao {
            assert(acao == acao_para(p));
            assert(a2 == a1);
            if resultado is Ok {
                let id = spec_id_em_edicao(s);
                if id == 0 {
                    let q = Produto { id: novo_id, ..p };
                    assert(t1 == t0.insert(novo_id, q));
                    assert(t1[novo_id] == q);
                } else {
                    if t0.contains_key(id) {
                        assert(t1 == t0.insert(id, p));
                    }
                }
                assert(salvou(a0, af, t0, novo_id, t1));
            } else {
                assert(recusou(a0, af, t0, t1));
            }
        } else {
            assert(recusou(a0, af, t0, t1));
        }
    } else {
        assert(recusou(a0, af, t0, t1));
    }
}

/// `a` e `b` são a mesma linha da tabela de produtos: mesmo código, nome,
/// código de barras, categoria, estoque mínimo e quantidade (o nome da
/// categoria não é gravado na linha).
pub open spec fn mesma_linha(a: Produto, b: Produto) -> bool {
    &&& a.id == b.id
    &&& a.nome@ == b.nome@
    &&& a.codigo_de_barras@ == b.codigo_de_barras@
    &&& a.categoria_id == b.categoria_id
    &&& a.estoque_minimo == b.estoque_minimo
    &&& a.quantidade_atual == b.quantidade_atual
}

/// Um texto não vazio sem espaços em branco nas pontas.
pub open spec fn sem_espacos_nas_pontas(s: Seq<char>) -> bool {
    s.len() > 0 && !eh_espaco(s[0]) && !eh_espaco(s.last())
}

/// Editar sem mudar nada regrava a mesma linha: aberto o formulário de edição
/// de um produto `p` válido da tabela (nome e código de barras sem espaços nas
/// pontas, categoria escolhida, estoque mínimo não negativo, preços lidos de
/// volta aceitos, e nenhum outro produto com o seu código de barras), salvar
/// sem editar deixa a tabela com as mesmas linhas e a linha de `p` igual a
/// `p`; se o banco grava, a tela volta à lista com o aviso de produto
/// atualizado.
pub proof fn lei_editar_sem_mudar_regrava_a_mesma_linha(
    p: Produto,
    a0: App,
    c: ComparacaoPrecos,
    preparo: Option<(Produto, ComparacaoPrecos)>,
    a1: App,
    existente: Option<Produto>,
    decisao: Option<AcaoProduto>,
    a2: App,
    resultado: Result<(), String>,
    af: App,
    t0: Map<i64, Produto>,
    novo_id: i64,
    t1: Map<i64, Produto>,
)
    requires
        aberto_para_edicao(a0.produtos_state, p),
        p.id != 0,
        p.categoria_id != 0,
        sem_espacos_nas_pontas(p.nome@),
        sem_espacos_nas_pontas(p.codigo_de_barras@),
        p.estoque_minimo >= 0,
        !c.custo_nao_positivo,
        !c.venda_nao_supera_custo,
        t0.contains_key(p.id),
        mesma_linha(t0[p.id], p),
        existente matches Some(x) ==> x.id == p.id,
        preparado(a0, LeituraPrecos::Lidos(c), preparo, a1),
        preparo matches Some(pc) ==> decidido(a1, pc.0, pc.1, existente, decisao, a2),
        decisao matches Some(acao) ==> concluido(a2, acao.produto().id, resultado, af),
        tabela_gravada(t0, decisao, resultado, novo_id, t1),
    ensures
        preparo is Some,
        decisao is Some,
        t1.dom() == t0.dom(),
        mesma_linha(t1[p.id], p),
        forall|k: i64| k != p.id && t0.contains_key(k) ==> t1[k] == t0[k],
        resultado is Ok ==> {
            &&& af.produtos_state.erro_form is None
            &&& af.produtos_state.modo == ModoProdutos::Lista
            &&& aviso_eh(af, "Produto atualizado com sucesso."@, false)
        },
{
    let s = a0.produtos_state;
    lema_aparado_sem_espacos_nas_pontas(p.nome@);
    lema_aparado_sem_espacos_nas_pontas(p.codigo_de_barras@);
    lei_inteiro_ou_zero_de_decimal(p.estoque_minimo);
    lei_inteiro_ou_zero_de_decimal(p.quantidade_atual);
    assert(spec_id_em_edicao(s) == p.id);
    assert(erro_do_preparo(s.form, LeituraPrecos::Lidos(c)) is None);
    let pc = preparo->0;
    let q = pc.0;
    assert(mesma_linha(q, p));
    assert(spec_validar_produto(q, c, existente) is Ok);
    assert(decisao == Some(AcaoProduto::Atualizar(q)));
    if resultado is Ok {
        assert(t1 == t0.insert(p.id, q));
    }
}

/// O nome da primeira categoria de `cats` com o código `id`, ou `padrao`
/// quando nenhuma o tem.
pub open spec fn spec_rotulo_categoria(cats: Seq<Categoria>, id: i64, padrao: Seq<char>) -> Seq<
    char,
>
    decreases cats.len(),
{
    if cats.len() == 0 {
        padrao
    } else if cats[0].id == id {
        cats[0].nome@
    } else {
        spec_rotulo_categoria(cats.drop_first(), id, padrao)
    }
}

/// O nome com que um seletor mostra a categoria `id`: o da primeira categoria
/// da lista com esse código, ou `padrao` quando não há nenhuma.
pub fn rotulo_categoria(categorias: &Vec<Categoria>, id: i64, padrao: &str) -> (r: String)
    ensures
        r@ == spec_rotulo_categoria(categorias@, id, padrao@),
{
    let n = categorias.len();
    let mut i: usize = 0;
    assert(categorias@.subrange(0, n as int) =~= categorias@);
    while i < n
        invariant
            n == categorias@.len(),
            i <= n,
            spec_rotulo_categoria(categorias@.subrange(i as int, n as int), id, padrao@)
                == spec_rotulo_categoria(categorias@, id, padrao@),
        decreases n - i,
    {
        if categorias[i].id == id {
            return categorias[i].nome.clone();
        }
        assert(categorias@.subrange(i as int, n as int).drop_first() =~= categorias@.subrange(
            i + 1,
            n as int,
        ));
        i = i + 1;
    }
    String::from_str(padrao)
}

impl ProdutosState {
    /// O texto do seletor de categoria da busca: "Todas" sem filtro; com
    /// filtro, o nome da categoria filtrada ("Todas" se ela não está na lista).
    pub fn rotulo_filtro_categoria(&self) -> (r: String)
        ensures
            r@ == if self.filtro_categoria_id == 0 {
                "Todas"@
            } else {
                spec_rotulo_categoria(self.categorias@, self.filtro_categoria_id, "Todas"@)
            },
    {
        if self.filtro_categoria_id == 0 {
            String::from_str("Todas")
        } else {
            rotulo_categoria(&self.categorias, self.filtro_categoria_id, "Todas")
        }
    }

    /// O texto do seletor de categoria do formulário: o nome da categoria
    /// escolhida, ou "Selecione..." quando nenhuma da lista está escolhida.
    pub fn rotulo_categoria_do_form(&self) -> (r: String)
        ensures
            r@ == spec_rotulo_categoria(self.categorias@, self.form.categoria_id, "Selecione..."@),
    {
        rotulo_categoria(&self.categorias, self.form.categoria_id, "Selecione...")
    }
}

/// A busca acha um produto pelo código de barras: se o filtro aparece, em
/// posições seguidas a partir de `i`, no código de barras (no começo, no meio
/// ou no fim), e a categoria confere, o produto passa.
pub proof fn lei_busca_acha_pelo_codigo(p: Produto, filtro: Seq<char>, categoria_id: i64, i: int)
    requires
        0 <= i,
        i + filtro.len() <= p.codigo_de_barras@.len(),
        p.codigo_de_barras@.subrange(i, i + filtro.len()) == filtro,
        categoria_id == 0 || p.categoria_id == categoria_id,
    ensures
        passa_no_filtro(p, filtro, categoria_id),
{
    assert(ocorre_em(p.codigo_de_barras@, filtro, i));
}

/// A busca acha um produto pelo nome: se o filtro aparece, em posições
/// seguidas a partir de `i`, no nome em minúsculas, e a categoria confere, o
/// produto passa.
pub proof fn lei_busca_acha_pelo_nome(p: Produto, filtro: Seq<char>, categoria_id: i64, i: int)
    requires
        0 <= i,
        i + filtro.len() <= minusculas(p.nome@).len(),
        minusculas(p.nome@).subrange(i, i + filtro.len()) == filtro,
        categoria_id == 0 || p.categoria_id == categoria_id,
    ensures
        passa_no_filtro(p, filtro, categoria_id),
{
    assert(ocorre_em(minusculas(p.nome@), filtro, i));
}

/// A busca recusa o que não procura: um produto de outra categoria, quando
/// uma categoria é escolhida; e, com um filtro não vazio, um produto em cujo
/// nome em minúsculas e em cujo código de barras o filtro não aparece em
/// posição nenhuma. Sem filtro e sem categoria, todos passam.
pub proof fn lei_busca_recusa(p: Produto, filtro: Seq<char>, categoria_id: i64)
    ensures
        categoria_id != 0 && p.categoria_id != categoria_id ==> !passa_no_filtro(
            p,
            filtro,
            categoria_id,
        ),
        filtro.len() > 0 && (forall|i: int, j: int|
            0 <= i && j == i + filtro.len() && j <= p.codigo_de_barras@.len()
                ==> #[trigger] p.codigo_de_barras@.subrange(i, j) != filtro) && (forall|i: int, j: int|
            0 <= i && j == i + filtro.len() && j <= minusculas(p.nome@).len() ==> #[trigger] minusculas(
                p.nome@,
            ).subrange(i, j) != filtro) ==> !passa_no_filtro(p, filtro, categoria_id),
        filtro.len() == 0 && categoria_id == 0 ==> passa_no_filtro(p, filtro, categoria_id),
{
}

/// O seletor mostra a primeira categoria com o código pedido: se `cats[k]` é
/// a primeira da lista com o código `id`, o rótulo é o seu nome.
pub proof fn lei_rotulo_da_primeira_categoria(
    cats: Seq<Categoria>,
    id: i64,
    padrao: Seq<char>,
    k: int,
)
    requires
        0 <= k < cats.len(),
        cats[k].id == id,
        forall|j: int| 0 <= j < k ==> #[trigger] cats[j].id != id,
    ensures
        spec_rotulo_categoria(cats, id, padrao) == cats[k].nome@,
    decreases k,
{
    if k > 0 {
        assert(cats[0].id != id);
        let resto = cats.drop_first();
        assert forall|j: int| 0 <= j < k - 1 implies #[trigger] resto[j].id != id by {
            assert(resto[j] == cats[j + 1]);
        }
        lei_rotulo_da_primeira_categoria(resto, id, padrao, k - 1);
    }
}

/// Sem nenhuma categoria com o código pedido, o seletor mostra o texto
/// padrão.
pub proof fn lei_rotulo_sem_categoria(cats: Seq<Categoria>, id: i64, padrao: Seq<char>)
    requires
        forall|j: int| 0 <= j < cats.len() ==> #[trigger] cats[j].id != id,
    ensures
        spec_rotulo_categoria(cats, id, padrao) == padrao,
    decreases cats.len(),
{
    if cats.len() > 0 {
        assert(cats[0].id != id);
        let resto = cats.drop_first();
        assert forall|j: int| 0 <= j < resto.len() implies #[trigger] resto[j].id != id by {
            assert(resto[j] == cats[j + 1]);
        }
        lei_rotulo_sem_categoria(resto, id, padrao);
    }
}

/// Com os campos obrigatórios preenchidos e os preços lidos, o formulário é
/// recusado antes do banco exatamente quando a validação dos campos recusa o
/// produto que ele monta, e com a mensagem desse erro.
pub proof fn lei_preparo_segue_a_validacao_dos_campos(
    f: ProdutoForm,
    c: ComparacaoPrecos,
    p: Produto,
    id: i64,
)
    requires
        aparado(f.nome@).len() > 0,
        aparado(f.codigo_de_barras@).len() > 0,
        f.categoria_id != 0,
        montado_do_form(p, f, id),
    ensures
        erro_do_preparo(f, LeituraPrecos::Lidos(c)) == match spec_validar_campos(p, c) {
            Err(e) => Some(e.texto()),
            Ok(_) => None::<Seq<char>>,
        },
{
}

/// Os campos obrigatórios vêm antes dos preços, e o custo antes da venda:
/// faltando nome, código de barras ou categoria, a mensagem é a dos campos
/// obrigatórios, quaisquer que sejam os preços; com eles, um custo que não é
/// número é recusado como tal, leia-se ou não a venda.
pub proof fn lei_preparo_em_ordem(f: ProdutoForm, precos: LeituraPrecos)
    ensures
        aparado(f.nome@).len() == 0 || aparado(f.codigo_de_barras@).len() == 0 || f.categoria_id
            == 0 ==> erro_do_preparo(f, precos) == Some("Preencha todos os campos obrigatórios."@),
        aparado(f.nome@).len() > 0 && aparado(f.codigo_de_barras@).len() > 0 && f.categoria_id != 0
            && precos == LeituraPrecos::CustoInvalido ==> erro_do_preparo(f, precos) == Some(
            "Preço de custo inválido."@,
        ),
        aparado(f.nome@).len() > 0 && aparado(f.codigo_de_barras@).len() > 0 && f.categoria_id != 0
            && precos == LeituraPrecos::VendaInvalida ==> erro_do_preparo(f, precos) == Some(
            "Preço de venda inválido."@,
        ),
{
}

} // verus!
